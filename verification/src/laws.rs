//! What holds of every list the engine shows, proved over its model.

use vstd::prelude::*;
use crate::providers::b64_suggestions_of;
use crate::providers::child_suggestions;
use crate::providers::command_suggestion_of;
use crate::providers::dynamic_items_of;
use crate::providers::expand_home_of;
use crate::providers::folder_suggestions_of;
use crate::providers::is_offered;
use crate::providers::lemma_child_suggestions;
use crate::providers::math_suggestions_of;
use crate::providers::open_child;
use crate::providers::open_folder;
use crate::providers::search_suggestion_of;
use crate::providers::unit_conversion_suggestions_of;
use crate::providers::FactsView;
use crate::providers::FolderEntryView;
use crate::sessionmgr::SessionMgr;
use crate::sessionmgr::SessionOperation;
use crate::suggestions::catalog_suggestion;
use crate::suggestions::catalog_suggestions;
use crate::suggestions::is_listed;
use crate::suggestions::lemma_relevant_static_members;
use crate::suggestions::relevant_items_of;
use crate::suggestions::relevant_static_of;
use crate::suggestions::session_suggestion;
use crate::suggestions::session_suggestion_if;
use crate::suggestions::session_suggestions;
use crate::suggestions::static_items_of;
use crate::suggestions::SuggestionMgr;
use crate::suggestions::SuggestionView;
use crate::sysinfo::CatalogEntryView;
use crate::text::contains_ignoring_case;

verus! {

/// No two suggestions of the list have the same id.
pub open spec fn ids_unique(items: Seq<SuggestionView>) -> bool {
    forall|i: int, j: int| 0 <= i < j < items.len() ==> items[i].id != items[j].id
}

/// No two entries of the listing have the same path.
pub open spec fn paths_distinct(children: Seq<FolderEntryView>) -> bool {
    forall|i: int, j: int| 0 <= i < j < children.len() ==> children[i].path != children[j].path
}

/// Which provider gives out an id: 0 for the folder provider, 1 for the
/// calculator, 2 for base64, 3 for unit conversion, 4 for the web search,
/// 5 for the command line, and 6 where none does.
pub open spec fn provider_of(id: Seq<char>) -> int {
    if "system.folder.open "@.is_prefix_of(id) {
        0
    } else if id == "evaluation.calc"@ {
        1
    } else if id == "evaluation.b64"@ {
        2
    } else if id == "evaluation.unit-conversion"@ {
        3
    } else if id == "action.search"@ {
        4
    } else if id == "system.command"@ {
        5
    } else {
        6
    }
}

/// The id is one that a provider gives out.
pub open spec fn is_provider_id(id: Seq<char>) -> bool {
    provider_of(id) < 6
}

/// The provider that gives the suggestion at position `i` of a list made of
/// the six providers' parts, the first four ending at `a`, `b`, `c` and `d`.
pub open spec fn part_at(i: int, a: int, b: int, c: int, d: int) -> int {
    if i < a {
        0
    } else if i < b {
        1
    } else if i < c {
        2
    } else if i < d {
        3
    } else if i == d {
        4
    } else {
        5
    }
}

/// Two texts after the same opening are equal only where they are equal
/// themselves.
pub proof fn lemma_same_opening(opening: Seq<char>, a: Seq<char>, b: Seq<char>)
    requires
        opening + a == opening + b,
    ensures
        a == b,
{
    assert((opening + a).subrange(opening.len() as int, (opening + a).len() as int) =~= a);
    assert((opening + b).subrange(opening.len() as int, (opening + b).len() as int) =~= b);
}

/// Every id that starts like a folder id counts as the folder provider's.
pub proof fn lemma_folder_id(path: Seq<char>)
    ensures
        provider_of("system.folder.open "@ + path) == 0,
{
    let opening = "system.folder.open "@;
    assert((opening + path).subrange(0, opening.len() as int) =~= opening);
}

/// The five fixed ids belong to five different providers, and none of them
/// starts like a folder id.
pub proof fn lemma_fixed_ids()
    ensures
        provider_of("evaluation.calc"@) == 1,
        provider_of("evaluation.b64"@) == 2,
        provider_of("evaluation.unit-conversion"@) == 3,
        provider_of("action.search"@) == 4,
        provider_of("system.command"@) == 5,
{
    reveal_strlit("system.folder.open ");
    reveal_strlit("evaluation.calc");
    reveal_strlit("evaluation.b64");
    reveal_strlit("evaluation.unit-conversion");
    reveal_strlit("action.search");
    reveal_strlit("system.command");
    let opening = "system.folder.open "@;
    let unit = "evaluation.unit-conversion"@;
    assert(opening.len() == 19);
    assert(unit.len() == 26);
    assert(unit.subrange(0, 19)[0] == unit[0]);
    assert(opening[0] == 's');
    assert(unit[0] == 'e');
    assert("evaluation.b64"@[11] == 'b');
    assert("evaluation.calc"@[11] == 'c');
    assert("action.search"@[0] == 'a');
    assert("system.command"@[0] == 's');
    assert("evaluation.b64"@[0] == 'e');
}

/// The suggestions for the directories beside the input have pairwise
/// different ids where the listing has pairwise different paths.
pub proof fn lemma_child_ids_unique(expanded: Seq<char>, children: Seq<FolderEntryView>)
    requires
        paths_distinct(children),
    ensures
        ids_unique(child_suggestions(expanded, children)),
    decreases children.len(),
{
    if children.len() > 0 {
        let rest = children.drop_last();
        let last = children.last();
        assert(paths_distinct(rest)) by {
            assert forall|i: int, j: int| 0 <= i < j < rest.len() implies rest[i].path
                != rest[j].path by {
                assert(rest[i] == children[i] && rest[j] == children[j]);
            }
        }
        lemma_child_ids_unique(expanded, rest);
        lemma_child_suggestions(expanded, rest);
        let before = child_suggestions(expanded, rest);
        let all = child_suggestions(expanded, children);
        assert forall|i: int, j: int| 0 <= i < j < all.len() implies all[i].id != all[j].id by {
            if j < before.len() {
                assert(all[i] == before[i] && all[j] == before[j]);
            } else {
                assert(all[i] == before[i]);
                let k = choose|k: int|
                    0 <= k < rest.len() && is_offered(expanded, rest[k]) && before[i] == open_child(
                        rest[k].path,
                    );
                assert(rest[k] == children[k]);
                assert(children[k].path != children[children.len() - 1].path);
                if all[i].id == all[j].id {
                    lemma_same_opening("system.folder.open "@, rest[k].path, last.path);
                }
            }
        }
    }
}

/// The static suggestions kept for an input have pairwise different ids
/// where the static list has.
pub proof fn lemma_relevant_static_ids_unique(statics: Seq<SuggestionView>, input: Seq<char>)
    requires
        ids_unique(statics),
    ensures
        ids_unique(relevant_static_of(statics, input)),
    decreases statics.len(),
{
    if statics.len() > 0 {
        let rest = statics.drop_last();
        assert(ids_unique(rest)) by {
            assert forall|i: int, j: int| 0 <= i < j < rest.len() implies rest[i].id
                != rest[j].id by {
                assert(rest[i] == statics[i] && rest[j] == statics[j]);
            }
        }
        lemma_relevant_static_ids_unique(rest, input);
        lemma_relevant_static_members(rest, input);
        let before = relevant_static_of(rest, input);
        let all = relevant_static_of(statics, input);
        assert forall|i: int, j: int| 0 <= i < j < all.len() implies all[i].id != all[j].id by {
            if j < before.len() {
                assert(all[i] == before[i] && all[j] == before[j]);
            } else {
                assert(all[i] == before[i]);
                assert(rest.contains(before[i]));
                let k = choose|k: int| 0 <= k < rest.len() && rest[k] == before[i];
                assert(rest[k] == statics[k]);
                assert(all[j] == statics[statics.len() - 1]);
            }
        }
    }
}

/// Every suggestion that the providers give carries the id of the provider
/// whose part of the list it stands in.
pub proof fn lemma_dynamic_parts(input: Seq<char>, facts: FactsView)
    ensures
        ({
            let a = folder_suggestions_of(input, facts).len() as int;
            let b = a + math_suggestions_of(input).len();
            let c = b + b64_suggestions_of(input).len();
            let d = c + unit_conversion_suggestions_of(input, facts.converted).len();
            let all = dynamic_items_of(input, facts);
            &&& b <= a + 1
            &&& c <= b + 1
            &&& d <= c + 1
            &&& all.len() == d + 2
            &&& forall|i: int|
                0 <= i < all.len() ==> provider_of(#[trigger] all[i].id) == part_at(i, a, b, c, d)
            &&& forall|i: int|
                0 <= i < a ==> all[i] == #[trigger] folder_suggestions_of(input, facts)[i]
        }),
{
    lemma_fixed_ids();
    let expanded = expand_home_of(input, facts.home);
    lemma_child_suggestions(expanded, facts.children);
    let folder = folder_suggestions_of(input, facts);
    let math = math_suggestions_of(input);
    let b64 = b64_suggestions_of(input);
    let unit = unit_conversion_suggestions_of(input, facts.converted);
    let all = dynamic_items_of(input, facts);
    let a = folder.len() as int;
    let b = a + math.len();
    let c = b + b64.len();
    let d = c + unit.len();
    let own = if facts.is_dir {
        seq![open_folder(input, expanded)]
    } else {
        Seq::empty()
    };
    assert forall|i: int| 0 <= i < all.len() implies provider_of(#[trigger] all[i].id) == part_at(
        i,
        a,
        b,
        c,
        d,
    ) by {
        if i < a {
            assert(all[i] == folder[i]);
            if i < own.len() {
                lemma_folder_id(input);
            } else {
                let beside = child_suggestions(expanded, facts.children);
                assert(folder[i] == beside[i - own.len()]);
                let k = choose|k: int|
                    0 <= k < facts.children.len() && is_offered(expanded, facts.children[k])
                        && beside[i - own.len()] == open_child(facts.children[k].path);
                lemma_folder_id(facts.children[k].path);
            }
        } else if i < b {
            assert(all[i] == math[i - a]);
        } else if i < c {
            assert(all[i] == b64[i - b]);
        } else if i < d {
            assert(all[i] == unit[i - c]);
        } else if i == d {
            assert(all[i] == search_suggestion_of(input));
        } else {
            assert(all[i] == command_suggestion_of(input));
        }
    }
}

/// The folder provider gives pairwise different ids where the listing has
/// pairwise different paths and, where the input itself is a directory
/// written with `~`, none of them is the input as written.
pub proof fn lemma_folder_ids_unique(input: Seq<char>, facts: FactsView)
    requires
        paths_distinct(facts.children),
        facts.is_dir && expand_home_of(input, facts.home) != input ==> forall|k: int|
            0 <= k < facts.children.len() ==> (#[trigger] facts.children[k]).path != input,
    ensures
        ids_unique(folder_suggestions_of(input, facts)),
{
    let expanded = expand_home_of(input, facts.home);
    lemma_child_ids_unique(expanded, facts.children);
    lemma_child_suggestions(expanded, facts.children);
    let beside = child_suggestions(expanded, facts.children);
    let folder = folder_suggestions_of(input, facts);
    let own = if facts.is_dir {
        seq![open_folder(input, expanded)]
    } else {
        Seq::empty()
    };
    assert forall|i: int, j: int| 0 <= i < j < folder.len() implies folder[i].id
        != folder[j].id by {
        if i < own.len() {
            assert(folder[j] == beside[j - 1]);
            let k = choose|k: int|
                0 <= k < facts.children.len() && is_offered(expanded, facts.children[k])
                    && beside[j - 1] == open_child(facts.children[k].path);
            if folder[i].id == folder[j].id {
                lemma_same_opening("system.folder.open "@, input, facts.children[k].path);
            }
        } else {
            assert(folder[i] == beside[i - own.len()]);
            assert(folder[j] == beside[j - own.len()]);
        }
    }
}

/// Which session operation an id stands for: 0 for suspend, 1 for restart,
/// 2 for shutting down, and 3 where it stands for none.
pub open spec fn session_of(id: Seq<char>) -> int {
    if id == "system.action.suspend"@ {
        0
    } else if id == "system.action.restart"@ {
        1
    } else if id == "system.action.poweroff"@ {
        2
    } else {
        3
    }
}

/// The id is one that the engine gives out itself: a provider's, or that of
/// a session operation.
pub open spec fn is_reserved_id(id: Seq<char>) -> bool {
    is_provider_id(id) || session_of(id) < 3
}

/// The listed entries of the catalog have pairwise different ids, and none
/// of them is reserved.
pub open spec fn catalog_ids_free(entries: Seq<CatalogEntryView>) -> bool {
    &&& forall|i: int, j: int|
        0 <= i < j < entries.len() && is_listed(entries[i]) && is_listed(entries[j])
            ==> entries[i].id != entries[j].id
    &&& forall|k: int|
        0 <= k < entries.len() && is_listed(#[trigger] entries[k]) ==> !is_reserved_id(
            entries[k].id,
        )
}

/// The ids of the three session operations differ from each other and from
/// every id that a provider gives out.
pub proof fn lemma_session_ids()
    ensures
        session_of(session_suggestion(SessionOperation::Suspend).id) == 0,
        session_of(session_suggestion(SessionOperation::Reboot).id) == 1,
        session_of(session_suggestion(SessionOperation::PowerOff).id) == 2,
        !is_provider_id(session_suggestion(SessionOperation::Suspend).id),
        !is_provider_id(session_suggestion(SessionOperation::Reboot).id),
        !is_provider_id(session_suggestion(SessionOperation::PowerOff).id),
{
    reveal_strlit("system.folder.open ");
    reveal_strlit("evaluation.calc");
    reveal_strlit("evaluation.b64");
    reveal_strlit("evaluation.unit-conversion");
    reveal_strlit("action.search");
    reveal_strlit("system.command");
    reveal_strlit("system.action.suspend");
    reveal_strlit("system.action.restart");
    reveal_strlit("system.action.poweroff");
    let opening = "system.folder.open "@;
    let suspend = "system.action.suspend"@;
    let restart = "system.action.restart"@;
    let poweroff = "system.action.poweroff"@;
    assert(suspend[14] == 's' && restart[14] == 'r');
    assert(suspend.len() == 21 && restart.len() == 21 && poweroff.len() == 22);
    assert(opening[7] == 'f');
    assert(suspend.subrange(0, 19)[7] == suspend[7] && suspend[7] == 'a');
    assert(restart.subrange(0, 19)[7] == restart[7] && restart[7] == 'a');
    assert(poweroff.subrange(0, 19)[7] == poweroff[7] && poweroff[7] == 'a');
    assert("evaluation.unit-conversion"@.len() == 26);
    assert("evaluation.calc"@.len() == 15);
    assert("evaluation.b64"@.len() == 14);
    assert("action.search"@.len() == 13);
    assert("system.command"@.len() == 14);
}

/// Every suggestion made of the catalog is that of a listed entry.
pub proof fn lemma_catalog_members(entries: Seq<CatalogEntryView>)
    ensures
        forall|i: int|
            0 <= i < catalog_suggestions(entries).len() ==> exists|j: int|
                0 <= j < entries.len() && is_listed(entries[j]) && #[trigger] catalog_suggestions(
                    entries,
                )[i] == catalog_suggestion(entries[j]),
    decreases entries.len(),
{
    if entries.len() > 0 {
        let rest = entries.drop_last();
        lemma_catalog_members(rest);
        let all = catalog_suggestions(entries);
        assert forall|i: int| 0 <= i < all.len() implies exists|j: int|
            0 <= j < entries.len() && is_listed(entries[j]) && #[trigger] all[i]
                == catalog_suggestion(entries[j]) by {
            if i < catalog_suggestions(rest).len() {
                let j = choose|j: int|
                    0 <= j < rest.len() && is_listed(rest[j]) && catalog_suggestions(rest)[i]
                        == catalog_suggestion(rest[j]);
                assert(entries[j] == rest[j]);
            } else {
                assert(all[i] == catalog_suggestion(entries[entries.len() - 1]));
            }
        }
    }
}

/// The suggestions made of a catalog have pairwise different ids where its
/// listed entries have.
pub proof fn lemma_catalog_ids_unique(entries: Seq<CatalogEntryView>)
    requires
        forall|i: int, j: int|
            0 <= i < j < entries.len() && is_listed(entries[i]) && is_listed(entries[j])
                ==> entries[i].id != entries[j].id,
    ensures
        ids_unique(catalog_suggestions(entries)),
    decreases entries.len(),
{
    if entries.len() > 0 {
        let rest = entries.drop_last();
        assert forall|i: int, j: int|
            0 <= i < j < rest.len() && is_listed(rest[i]) && is_listed(rest[j]) implies rest[i].id
            != rest[j].id by {
            assert(rest[i] == entries[i] && rest[j] == entries[j]);
        }
        lemma_catalog_ids_unique(rest);
        lemma_catalog_members(rest);
        let before = catalog_suggestions(rest);
        let all = catalog_suggestions(entries);
        assert forall|i: int, j: int| 0 <= i < j < all.len() implies all[i].id != all[j].id by {
            if j < before.len() {
                assert(all[i] == before[i] && all[j] == before[j]);
            } else {
                assert(all[i] == before[i]);
                let k = choose|k: int|
                    0 <= k < rest.len() && is_listed(rest[k]) && before[i] == catalog_suggestion(
                        rest[k],
                    );
                assert(rest[k] == entries[k]);
                assert(all[j] == catalog_suggestion(entries[entries.len() - 1]));
            }
        }
    }
}

/// The static list built from a catalog whose ids are free has pairwise
/// different ids, and none of them is a provider's.
pub proof fn lemma_static_ids(entries: Seq<CatalogEntryView>, session: SessionMgr)
    requires
        catalog_ids_free(entries),
    ensures
        ids_unique(static_items_of(entries, session)),
        forall|k: int|
            0 <= k < static_items_of(entries, session).len() ==> !is_provider_id(
                #[trigger] static_items_of(entries, session)[k].id,
            ),
{
    lemma_session_ids();
    lemma_catalog_ids_unique(entries);
    lemma_catalog_members(entries);
    let from_catalog = catalog_suggestions(entries);
    let suspend = session_suggestion_if(session, SessionOperation::Suspend);
    let restart = session_suggestion_if(session, SessionOperation::Reboot);
    let poweroff = session_suggestion_if(session, SessionOperation::PowerOff);
    let all = static_items_of(entries, session);
    let a = from_catalog.len() as int;
    let b = a + suspend.len();
    let c = b + restart.len();
    assert forall|k: int| 0 <= k < all.len() implies (if k < a {
        !is_reserved_id(#[trigger] all[k].id)
    } else if k < b {
        session_of(all[k].id) == 0 && !is_provider_id(all[k].id)
    } else if k < c {
        session_of(all[k].id) == 1 && !is_provider_id(all[k].id)
    } else {
        session_of(all[k].id) == 2 && !is_provider_id(all[k].id)
    }) by {
        if k < a {
            assert(all[k] == from_catalog[k]);
            let j = choose|j: int|
                0 <= j < entries.len() && is_listed(entries[j]) && from_catalog[k]
                    == catalog_suggestion(entries[j]);
            assert(!is_reserved_id(entries[j].id));
        } else if k < b {
            assert(all[k] == suspend[k - a]);
        } else if k < c {
            assert(all[k] == restart[k - b]);
        } else {
            assert(all[k] == poweroff[k - c]);
        }
    }
    assert forall|i: int, j: int| 0 <= i < j < all.len() implies all[i].id != all[j].id by {
        if j < a {
            assert(all[i] == from_catalog[i] && all[j] == from_catalog[j]);
        }
    }
}

/// After an update from any input, no two shown suggestions have the same
/// id, given a static list with pairwise different ids of which none is a
/// provider's, and a listing as `lemma_folder_ids_unique` asks for.
pub proof fn lemma_update_ids_unique(
    statics: Seq<SuggestionView>,
    input: Seq<char>,
    facts: FactsView,
)
    requires
        ids_unique(statics),
        forall|k: int| 0 <= k < statics.len() ==> !is_provider_id(#[trigger] statics[k].id),
        paths_distinct(facts.children),
        facts.is_dir && expand_home_of(input, facts.home) != input ==> forall|k: int|
            0 <= k < facts.children.len() ==> (#[trigger] facts.children[k]).path != input,
    ensures
        ids_unique(relevant_items_of(statics, input, facts)),
{
    lemma_relevant_static_ids_unique(statics, input);
    lemma_relevant_static_members(statics, input);
    lemma_dynamic_parts(input, facts);
    lemma_folder_ids_unique(input, facts);
    let kept = relevant_static_of(statics, input);
    let given = dynamic_items_of(input, facts);
    let folder = folder_suggestions_of(input, facts);
    let all = relevant_items_of(statics, input, facts);
    let n = kept.len() as int;
    assert forall|i: int, j: int| 0 <= i < j < all.len() implies all[i].id != all[j].id by {
        if j < n {
            assert(all[i] == kept[i] && all[j] == kept[j]);
        } else if i < n {
            assert(all[i] == kept[i]);
            assert(all[j] == given[j - n]);
            assert(statics.contains(kept[i]));
            let k = choose|k: int| 0 <= k < statics.len() && statics[k] == kept[i];
            assert(!is_provider_id(statics[k].id));
            assert(provider_of(given[j - n].id) < 6);
        } else {
            assert(all[i] == given[i - n]);
            assert(all[j] == given[j - n]);
            if j - n < folder.len() {
                assert(given[i - n] == folder[i - n]);
                assert(given[j - n] == folder[j - n]);
            } else {
                assert(provider_of(given[i - n].id) != provider_of(given[j - n].id));
            }
        }
    }
}

/// For an engine built from a catalog whose ids are free, no two suggestions
/// shown after an update have the same id, given a listing as
/// `lemma_folder_ids_unique` asks for.
pub proof fn lemma_engine_ids_unique(
    entries: Seq<CatalogEntryView>,
    session: SessionMgr,
    input: Seq<char>,
    facts: FactsView,
)
    requires
        catalog_ids_free(entries),
        paths_distinct(facts.children),
        facts.is_dir && expand_home_of(input, facts.home) != input ==> forall|k: int|
            0 <= k < facts.children.len() ==> (#[trigger] facts.children[k]).path != input,
    ensures
        ids_unique(relevant_items_of(static_items_of(entries, session), input, facts)),
{
    lemma_static_ids(entries, session);
    lemma_update_ids_unique(static_items_of(entries, session), input, facts);
}

/// The web search and the command line are each given exactly once for every
/// input: they are the last two suggestions, and no other suggestion of the
/// providers has their ids.
pub proof fn lemma_fallbacks_given_once(input: Seq<char>, facts: FactsView)
    ensures
        ({
            let given = dynamic_items_of(input, facts);
            &&& given.len() >= 2
            &&& given[given.len() - 2] == search_suggestion_of(input)
            &&& given[given.len() - 1] == command_suggestion_of(input)
            &&& forall|i: int|
                0 <= i < given.len() - 2 ==> (#[trigger] given[i]).id != "action.search"@
                    && given[i].id != "system.command"@
        }),
{
    lemma_dynamic_parts(input, facts);
    lemma_fixed_ids();
    let given = dynamic_items_of(input, facts);
    assert forall|i: int| 0 <= i < given.len() - 2 implies (#[trigger] given[i]).id
        != "action.search"@ && given[i].id != "system.command"@ by {
        assert(provider_of(given[i].id) < 4);
    }
}

/// Every static suggestion whose title contains the input, letter case
/// ignored, is shown after an update from that input; and every static
/// suggestion kept has such a title.
pub proof fn lemma_matching_statics_shown(
    statics: Seq<SuggestionView>,
    input: Seq<char>,
    facts: FactsView,
)
    ensures
        forall|k: int|
            0 <= k < statics.len() && contains_ignoring_case((#[trigger] statics[k]).title, input)
                ==> relevant_items_of(statics, input, facts).contains(statics[k]),
        forall|i: int|
            0 <= i < relevant_static_of(statics, input).len() ==> contains_ignoring_case(
                (#[trigger] relevant_static_of(statics, input)[i]).title,
                input,
            ),
    decreases statics.len(),
{
    let kept = relevant_static_of(statics, input);
    let all = relevant_items_of(statics, input, facts);
    if statics.len() > 0 {
        let rest = statics.drop_last();
        lemma_matching_statics_shown(rest, input, facts);
        let before = relevant_static_of(rest, input);
        assert forall|k: int|
            0 <= k < statics.len() && contains_ignoring_case(
                (#[trigger] statics[k]).title,
                input,
            ) implies all.contains(statics[k]) by {
            if k < rest.len() {
                assert(rest[k] == statics[k]);
                let shown = relevant_items_of(rest, input, facts);
                assert(shown.contains(rest[k]));
                let at = choose|at: int| 0 <= at < shown.len() && shown[at] == rest[k];
                if at < before.len() {
                    assert(all[at] == before[at]);
                } else {
                    assert(all[at - before.len() + kept.len()] == shown[at]);
                }
            } else {
                assert(all[kept.len() - 1] == statics[k]);
            }
        }
        assert forall|i: int| 0 <= i < kept.len() implies contains_ignoring_case(
            (#[trigger] kept[i]).title,
            input,
        ) by {
            if i < before.len() {
                assert(kept[i] == before[i]);
            }
        }
    }
}

/// Where the input names a directory, the first suggestion of the folder
/// provider opens that directory, with the home directory filled in.
pub proof fn lemma_directory_is_offered(input: Seq<char>, facts: FactsView)
    requires
        facts.is_dir,
    ensures
        folder_suggestions_of(input, facts).len() >= 1,
        folder_suggestions_of(input, facts)[0] == open_folder(
            input,
            expand_home_of(input, facts.home),
        ),
        dynamic_items_of(input, facts)[0] == folder_suggestions_of(input, facts)[0],
{
}

/// Every suggestion for a directory beside the input carries a completion
/// that ends with the path separator.
pub proof fn lemma_child_completions(expanded: Seq<char>, children: Seq<FolderEntryView>)
    ensures
        forall|i: int|
            0 <= i < child_suggestions(expanded, children).len() ==> {
                let completion = (#[trigger] child_suggestions(expanded, children)[i]).completion;
                completion is Some && completion->0.len() > 0 && completion->0.last() == '/'
            },
{
    reveal_strlit("/");
    lemma_child_suggestions(expanded, children);
    let beside = child_suggestions(expanded, children);
    assert forall|i: int| 0 <= i < beside.len() implies {
        let completion = (#[trigger] beside[i]).completion;
        completion is Some && completion->0.len() > 0 && completion->0.last() == '/'
    } by {
        let k = choose|k: int|
            0 <= k < children.len() && is_offered(expanded, children[k]) && beside[i]
                == open_child(children[k].path);
        assert("/"@.len() == 1);
        assert((children[k].path + "/"@).last() == "/"@[0]);
    }
}

/// Two updates from the same input with the same facts show the same list,
/// and leave the static list as it was.
pub proof fn lemma_update_idempotent(
    before: SuggestionMgr,
    once: SuggestionMgr,
    twice: SuggestionMgr,
    input: Seq<char>,
    facts: FactsView,
)
    requires
        before.updated(input, facts, once),
        once.updated(input, facts, twice),
    ensures
        twice.relevant() == once.relevant(),
        twice.statics() == before.statics(),
{
}

} // verus!
