//! Suggestions, the actions they carry, and the engine that keeps the list
//! shown for the current input.

use vstd::prelude::*;
use crate::providers::dynamic_items_of;
use crate::providers::lemma_dynamic_items_no_session;
use crate::providers::Facts;
use crate::providers::FactsView;
use crate::sessionmgr::SessionMgr;
use crate::sessionmgr::SessionOperation;
use crate::sessionmgr::SessionRequest;
use crate::sysaction::launch_of;
use crate::sysaction::try_run;
use crate::sysaction::Launch;
use crate::sysinfo::catalog;
use crate::sysinfo::entry_command;
use crate::sysinfo::mime_type_of;
use crate::sysinfo::opt_text;
use crate::sysinfo::CatalogEntry;
use crate::sysinfo::CatalogEntryView;
use crate::sysinfo::DefaultApplicationKind;
use crate::sysinfo::DefaultApplicationType;
use crate::sysinfo::SysInfoLoader;
use crate::text::clone_strings;
use crate::text::contains_ignore_case;
use crate::text::contains_ignoring_case;
use crate::text::same_text;
use crate::text::texts;

verus! {

/// What activating a suggestion does.
#[derive(Debug, PartialEq, Eq)]
pub enum Action {
    NoOp,
    Open(DefaultApplicationType, String),
    Command(Vec<String>),
    Session(SessionOperation),
    CopyToClipboard(String),
}

/// An `Action` as a mathematical value.
pub enum ActionView {
    NoOp,
    Open(DefaultApplicationKind, Seq<char>),
    Command(Seq<Seq<char>>),
    Session(SessionOperation),
    CopyToClipboard(Seq<char>),
}

impl View for Action {
    type V = ActionView;

    open spec fn view(&self) -> ActionView {
        match self {
            Action::NoOp => ActionView::NoOp,
            Action::Open(app_type, target) => ActionView::Open(app_type@, target@),
            Action::Command(argv) => ActionView::Command(texts(argv@)),
            Action::Session(operation) => ActionView::Session(*operation),
            Action::CopyToClipboard(text) => ActionView::CopyToClipboard(text@),
        }
    }
}

impl Clone for Action {
    fn clone(&self) -> (copy: Self)
        ensures
            copy@ == self@,
    {
        match self {
            Action::NoOp => Action::NoOp,
            Action::Open(app_type, target) => Action::Open(app_type.clone(), target.clone()),
            Action::Command(argv) => Action::Command(clone_strings(argv)),
            Action::Session(operation) => Action::Session(*operation),
            Action::CopyToClipboard(text) => Action::CopyToClipboard(text.clone()),
        }
    }
}

/// One candidate shown to the user for the current input.
#[derive(Debug, PartialEq, Eq)]
pub struct Suggestion {
    /// Identifies the suggestion within the list it was returned in.
    pub id: String,
    pub title: String,
    pub description: String,
    pub icon_path: Option<String>,
    pub action: Action,
    /// Text that replaces the whole input when the user asks for completion.
    pub completion: Option<String>,
}

/// A `Suggestion` as a mathematical value.
pub struct SuggestionView {
    pub id: Seq<char>,
    pub title: Seq<char>,
    pub description: Seq<char>,
    pub icon_path: Option<Seq<char>>,
    pub action: ActionView,
    pub completion: Option<Seq<char>>,
}

impl View for Suggestion {
    type V = SuggestionView;

    open spec fn view(&self) -> SuggestionView {
        SuggestionView {
            id: self.id@,
            title: self.title@,
            description: self.description@,
            icon_path: opt_text(self.icon_path),
            action: self.action@,
            completion: opt_text(self.completion),
        }
    }
}

/// A copy of an optional string.
pub fn clone_opt(value: &Option<String>) -> (copy: Option<String>)
    ensures
        opt_text(copy) == opt_text(*value),
{
    match value {
        Some(s) => Some(s.clone()),
        None => None,
    }
}

impl Clone for Suggestion {
    fn clone(&self) -> (copy: Self)
        ensures
            copy@ == self@,
    {
        Suggestion {
            id: self.id.clone(),
            title: self.title.clone(),
            description: self.description.clone(),
            icon_path: clone_opt(&self.icon_path),
            action: self.action.clone(),
            completion: clone_opt(&self.completion),
        }
    }
}

/// What the host does with its window after a suggestion has run.
#[derive(Debug, Clone, Copy, PartialEq, Eq, Structural)]
pub enum PostRunAction {
    Nothing,
    Close,
}

/// The suggestions of a list as mathematical values.
pub open spec fn views(list: Seq<Suggestion>) -> Seq<SuggestionView> {
    list.map_values(|s: Suggestion| s@)
}

/// A suggestion without description, icon or completion.
pub open spec fn plain(id: Seq<char>, title: Seq<char>, action: ActionView) -> SuggestionView {
    SuggestionView {
        id,
        title,
        description: Seq::empty(),
        icon_path: None,
        action,
        completion: None,
    }
}

/// Builds a suggestion without description, icon or completion.
pub fn plain_suggestion(id: &str, title: String, action: Action) -> (suggestion: Suggestion)
    ensures
        suggestion@ == plain(id@, title@, action@),
{
    Suggestion {
        id: id.to_owned(),
        title,
        description: String::new(),
        icon_path: None,
        action,
        completion: None,
    }
}

/// `body` between `opening` and a closing apostrophe.
pub open spec fn quoted(opening: Seq<char>, body: Seq<char>) -> Seq<char> {
    opening + body + "'"@
}

/// Writes `body` between `opening` and a closing apostrophe.
pub fn quote(opening: &str, body: &str) -> (text: String)
    ensures
        text@ == quoted(opening@, body@),
{
    let mut text = opening.to_owned();
    text.append(body);
    text.append("'");
    text
}

/// Writes `tail` after `head`.
pub fn concat(head: &str, tail: &str) -> (text: String)
    ensures
        text@ == head@ + tail@,
{
    let mut text = head.to_owned();
    text.append(tail);
    text
}

/// What the host has to carry out when a suggestion runs.
#[derive(Debug, PartialEq, Eq)]
pub enum Effect {
    Nothing,
    /// Open the target with the default application for the MIME type.
    Open(String, String),
    /// Start a process, detached.
    Spawn(Launch),
    /// Ask the session service for an operation.
    Session(SessionRequest),
    /// Put the text on the clipboard.
    Clipboard(String),
}

/// An `Effect` as a mathematical value.
pub enum EffectView {
    Nothing,
    Open(Seq<char>, Seq<char>),
    Spawn(Seq<char>, Seq<Seq<char>>),
    Session(SessionRequest),
    Clipboard(Seq<char>),
}

impl View for Effect {
    type V = EffectView;

    open spec fn view(&self) -> EffectView {
        match self {
            Effect::Nothing => EffectView::Nothing,
            Effect::Open(mime, target) => EffectView::Open(mime@, target@),
            Effect::Spawn(launch) => EffectView::Spawn(launch.program@, texts(launch.args@)),
            Effect::Session(request) => EffectView::Session(*request),
            Effect::Clipboard(text) => EffectView::Clipboard(text@),
        }
    }
}

/// The effect that an action asks for. An empty command line asks for
/// nothing.
pub open spec fn effect_of(action: ActionView) -> EffectView {
    match action {
        ActionView::NoOp => EffectView::Nothing,
        ActionView::Open(app_type, target) => EffectView::Open(mime_type_of(app_type), target),
        ActionView::Command(argv) => match launch_of(argv) {
            Some(launch) => EffectView::Spawn(launch.0, launch.1),
            None => EffectView::Nothing,
        },
        ActionView::Session(operation) => EffectView::Session(
            SessionRequest { operation, interactive: false },
        ),
        ActionView::CopyToClipboard(text) => EffectView::Clipboard(text),
    }
}

/// A session action is permitted only where its operation is enabled; every
/// other action is permitted.
pub open spec fn permitted(action: ActionView, session: SessionMgr) -> bool {
    action matches ActionView::Session(operation) ==> session.permits(operation)
}

/// Every action in the list is permitted.
pub open spec fn all_permitted(items: Seq<SuggestionView>, session: SessionMgr) -> bool {
    forall|i: int| 0 <= i < items.len() ==> permitted(#[trigger] items[i].action, session)
}

/// Some suggestion of the list has the id.
pub open spec fn has_id(items: Seq<SuggestionView>, id: Seq<char>) -> bool {
    exists|i: int| 0 <= i < items.len() && #[trigger] items[i].id == id
}

/// Position `at` holds the first suggestion of the list with the id.
pub open spec fn first_with_id(items: Seq<SuggestionView>, id: Seq<char>, at: int) -> bool {
    &&& 0 <= at < items.len()
    &&& items[at].id == id
    &&& forall|k: int| 0 <= k < at ==> #[trigger] items[k].id != id
}

/// A catalog entry is listed when it is visible and has a command.
pub open spec fn is_listed(entry: CatalogEntryView) -> bool {
    !entry.no_display && entry.command is Some
}

/// The suggestion that launches a catalog entry. Its description is the
/// entry's comment, or its name where it has none.
pub open spec fn catalog_suggestion(entry: CatalogEntryView) -> SuggestionView {
    SuggestionView {
        id: entry.id,
        title: entry.name,
        description: match entry.comment {
            Some(comment) => comment,
            None => entry.name,
        },
        icon_path: entry.icon,
        action: ActionView::Command(entry_command(entry)),
        completion: None,
    }
}

/// The suggestions for the listed entries of a catalog, in its order.
pub open spec fn catalog_suggestions(entries: Seq<CatalogEntryView>) -> Seq<SuggestionView>
    decreases entries.len(),
{
    if entries.len() == 0 {
        Seq::empty()
    } else if is_listed(entries.last()) {
        catalog_suggestions(entries.drop_last()).push(catalog_suggestion(entries.last()))
    } else {
        catalog_suggestions(entries.drop_last())
    }
}

/// The suggestion for a session operation.
pub open spec fn session_suggestion(operation: SessionOperation) -> SuggestionView {
    match operation {
        SessionOperation::Suspend => SuggestionView {
            id: "system.action.suspend"@,
            title: "Suspend"@,
            description: "Suspend the computer"@,
            icon_path: None,
            action: ActionView::Session(operation),
            completion: None,
        },
        SessionOperation::Reboot => SuggestionView {
            id: "system.action.restart"@,
            title: "Restart"@,
            description: "Restart the computer"@,
            icon_path: None,
            action: ActionView::Session(operation),
            completion: None,
        },
        SessionOperation::PowerOff => SuggestionView {
            id: "system.action.poweroff"@,
            title: "Shutdown"@,
            description: "Poweeer off the system"@,
            icon_path: None,
            action: ActionView::Session(operation),
            completion: None,
        },
    }
}

/// The suggestion for an operation where it is enabled.
pub open spec fn session_suggestion_if(session: SessionMgr, operation: SessionOperation) -> Seq<
    SuggestionView,
> {
    if session.permits(operation) {
        seq![session_suggestion(operation)]
    } else {
        Seq::empty()
    }
}

/// The suggestions for the enabled session operations: suspend, restart,
/// shut down, in this order.
pub open spec fn session_suggestions(session: SessionMgr) -> Seq<SuggestionView> {
    session_suggestion_if(session, SessionOperation::Suspend) + session_suggestion_if(
        session,
        SessionOperation::Reboot,
    ) + session_suggestion_if(session, SessionOperation::PowerOff)
}

/// The suggestions that do not depend on the input: the catalog's, then the
/// session's.
pub open spec fn static_items_of(entries: Seq<CatalogEntryView>, session: SessionMgr) -> Seq<
    SuggestionView,
> {
    catalog_suggestions(entries) + session_suggestions(session)
}

/// The suggestions of a list whose title contains the input, letter case
/// ignored, in the list's order.
pub open spec fn relevant_static_of(statics: Seq<SuggestionView>, input: Seq<char>) -> Seq<
    SuggestionView,
>
    decreases statics.len(),
{
    if statics.len() == 0 {
        Seq::empty()
    } else if contains_ignoring_case(statics.last().title, input) {
        relevant_static_of(statics.drop_last(), input).push(statics.last())
    } else {
        relevant_static_of(statics.drop_last(), input)
    }
}

/// The list shown for an input: the matching static suggestions, then what
/// the providers give.
pub open spec fn relevant_items_of(
    statics: Seq<SuggestionView>,
    input: Seq<char>,
    facts: FactsView,
) -> Seq<SuggestionView> {
    relevant_static_of(statics, input) + dynamic_items_of(input, facts)
}

/// The catalog gives only command suggestions.
pub proof fn lemma_catalog_actions(entries: Seq<CatalogEntryView>)
    ensures
        forall|i: int|
            0 <= i < catalog_suggestions(entries).len() ==> #[trigger] catalog_suggestions(
                entries,
            )[i].action is Command,
    decreases entries.len(),
{
    if entries.len() > 0 {
        lemma_catalog_actions(entries.drop_last());
    }
}

/// Every static suggestion is permitted by the capabilities it was built
/// from.
pub proof fn lemma_static_items_permitted(entries: Seq<CatalogEntryView>, session: SessionMgr)
    ensures
        all_permitted(static_items_of(entries, session), session),
{
    lemma_catalog_actions(entries);
    let items = static_items_of(entries, session);
    let from_catalog = catalog_suggestions(entries);
    assert forall|i: int| 0 <= i < items.len() implies permitted(
        #[trigger] items[i].action,
        session,
    ) by {
        if i < from_catalog.len() {
            assert(items[i] == from_catalog[i]);
        }
    }
}

/// Every suggestion kept for an input is one of the list it was kept from.
pub proof fn lemma_relevant_static_members(statics: Seq<SuggestionView>, input: Seq<char>)
    ensures
        forall|i: int|
            0 <= i < relevant_static_of(statics, input).len() ==> statics.contains(
                #[trigger] relevant_static_of(statics, input)[i],
            ),
    decreases statics.len(),
{
    if statics.len() > 0 {
        let rest = statics.drop_last();
        lemma_relevant_static_members(rest, input);
        let kept = relevant_static_of(statics, input);
        assert forall|i: int| 0 <= i < kept.len() implies statics.contains(#[trigger] kept[i]) by {
            if i < relevant_static_of(rest, input).len() {
                let item = relevant_static_of(rest, input)[i];
                assert(rest.contains(item));
                let j = choose|j: int| 0 <= j < rest.len() && rest[j] == item;
                assert(statics[j] == item);
            } else {
                assert(statics[statics.len() - 1] == kept[i]);
            }
        }
    }
}

/// The list shown for an input asks for no session operation that is not
/// enabled, where the static list asks for none.
pub proof fn lemma_relevant_items_permitted(
    statics: Seq<SuggestionView>,
    input: Seq<char>,
    facts: FactsView,
    session: SessionMgr,
)
    requires
        all_permitted(statics, session),
    ensures
        all_permitted(relevant_items_of(statics, input, facts), session),
{
    lemma_relevant_static_members(statics, input);
    lemma_dynamic_items_no_session(input, facts);
    let kept = relevant_static_of(statics, input);
    let given = dynamic_items_of(input, facts);
    let all = relevant_items_of(statics, input, facts);
    assert forall|i: int| 0 <= i < all.len() implies permitted(
        #[trigger] all[i].action,
        session,
    ) by {
        if i < kept.len() {
            assert(all[i] == kept[i]);
            assert(statics.contains(kept[i]));
            let j = choose|j: int| 0 <= j < statics.len() && statics[j] == kept[i];
            assert(permitted(statics[j].action, session));
        } else {
            assert(all[i] == given[i - kept.len()]);
        }
    }
}

/// The engine: the suggestions that never change, the list shown for the
/// current input, and the session capabilities found at start.
#[derive(Debug)]
pub struct SuggestionMgr {
    session_mgr: SessionMgr,
    static_items: Vec<Suggestion>,
    relevant_items: Vec<Suggestion>,
}

impl Suggestion {
    /// The suggestion that launches a catalog entry.
    pub fn from(e: &CatalogEntry) -> (suggestion: Self)
        ensures
            suggestion@ == catalog_suggestion(e@),
    {
        let description = match &e.comment {
            Some(comment) => comment.clone(),
            None => e.name.clone(),
        };
        Suggestion {
            id: e.id.clone(),
            title: e.name.clone(),
            description,
            icon_path: clone_opt(&e.icon),
            action: Action::from(e),
            completion: None,
        }
    }
}

impl Action {
    /// The action that runs the command line of a catalog entry.
    pub fn from(e: &CatalogEntry) -> (action: Self)
        ensures
            action@ == ActionView::Command(entry_command(e@)),
    {
        Action::Command(SysInfoLoader::cmd(e))
    }
}

/// Builds the suggestion for a session operation.
fn make_session_suggestion(operation: SessionOperation) -> (suggestion: Suggestion)
    ensures
        suggestion@ == session_suggestion(operation),
{
    match operation {
        SessionOperation::Suspend => Suggestion {
            id: "system.action.suspend".to_owned(),
            title: "Suspend".to_owned(),
            description: "Suspend the computer".to_owned(),
            icon_path: None,
            action: Action::Session(operation),
            completion: None,
        },
        SessionOperation::Reboot => Suggestion {
            id: "system.action.restart".to_owned(),
            title: "Restart".to_owned(),
            description: "Restart the computer".to_owned(),
            icon_path: None,
            action: Action::Session(operation),
            completion: None,
        },
        SessionOperation::PowerOff => Suggestion {
            id: "system.action.poweroff".to_owned(),
            title: "Shutdown".to_owned(),
            description: "Poweeer off the system".to_owned(),
            icon_path: None,
            action: Action::Session(operation),
            completion: None,
        },
    }
}

impl SuggestionMgr {
    /// The suggestions that never change.
    pub closed spec fn statics(&self) -> Seq<SuggestionView> {
        views(self.static_items@)
    }

    /// The list shown for the current input.
    pub closed spec fn relevant(&self) -> Seq<SuggestionView> {
        views(self.relevant_items@)
    }

    /// The session capabilities found at start.
    pub closed spec fn capabilities(&self) -> SessionMgr {
        self.session_mgr
    }

    /// No suggestion of the engine asks for a session operation that is not
    /// enabled.
    #[verifier::type_invariant]
    pub closed spec fn wf(&self) -> bool {
        &&& all_permitted(self.statics(), self.capabilities())
        &&& all_permitted(self.relevant(), self.capabilities())
    }

    /// `after` is `self` once `update` has run on the input: the shown list
    /// is computed anew, nothing else changes.
    pub open spec fn updated(&self, input: Seq<char>, facts: FactsView, after: Self) -> bool {
        &&& after.statics() == self.statics()
        &&& after.capabilities() == self.capabilities()
        &&& after.relevant() == relevant_items_of(self.statics(), input, facts)
    }

    /// Builds the engine from the catalog and the session capabilities. The
    /// list shown at first is the whole static list.
    pub fn new(sysinfo_loader: &SysInfoLoader, session_mgr: SessionMgr) -> (mgr: Self)
        ensures
            mgr.capabilities() == session_mgr,
            mgr.statics() == static_items_of(catalog(sysinfo_loader.desktop_entries@), session_mgr),
            mgr.relevant() == mgr.statics(),
    {
        let static_items = SuggestionMgr::load_static_items(
            &sysinfo_loader.desktop_entries,
            &session_mgr,
        );
        let relevant_items = clone_suggestions(&static_items);
        proof {
            lemma_static_items_permitted(catalog(sysinfo_loader.desktop_entries@), session_mgr);
        }
        SuggestionMgr { session_mgr, static_items, relevant_items }
    }

    /// Computes the list for `input` anew and shows it in place of the
    /// former one.
    pub fn update(&mut self, input: &str, facts: &Facts)
        ensures
            old(self).updated(input@, facts@, *final(self)),
    {
        let items = self.get_relevant_items(input, facts);
        proof {
            use_type_invariant(&*self);
            lemma_relevant_items_permitted(self.statics(), input@, facts@, self.capabilities());
        }
        self.relevant_items = items;
    }

    /// The list shown for the current input. None of its suggestions asks
    /// for a session operation that is not enabled.
    pub fn get_suggestions(&self) -> (list: &Vec<Suggestion>)
        ensures
            views(list@) == self.relevant(),
            all_permitted(views(list@), self.capabilities()),
    {
        proof {
            use_type_invariant(self);
        }
        &self.relevant_items
    }

    /// The first shown suggestion with the given id, if there is one.
    pub fn try_get_suggestion_by_id(&self, id: &str) -> (found: Option<&Suggestion>)
        ensures
            match found {
                Some(suggestion) => exists|at: int|
                    first_with_id(self.relevant(), id@, at) && self.relevant()[at] == suggestion@,
                None => !has_id(self.relevant(), id@),
            },
    {
        let mut i: usize = 0;
        while i < self.relevant_items.len()
            invariant
                i <= self.relevant_items.len(),
                forall|k: int| 0 <= k < i ==> #[trigger] self.relevant()[k].id != id@,
            decreases self.relevant_items.len() - i,
        {
            let item = &self.relevant_items[i];
            if same_text(item.id.as_str(), id) {
                assert(first_with_id(self.relevant(), id@, i as int));
                return Some(item);
            }
            i += 1;
        }
        None
    }

    /// Says what the host must carry out for a suggestion, and that it is to
    /// close its window afterwards.
    pub fn run(&self, suggestion: &Suggestion) -> (outcome: (PostRunAction, Effect))
        requires
            permitted(suggestion@.action, self.capabilities()),
        ensures
            outcome.0 == PostRunAction::Close,
            outcome.1@ == effect_of(suggestion@.action),
    {
        let effect = match &suggestion.action {
            Action::NoOp => Effect::Nothing,
            Action::Open(app_type, target) => Effect::Open(
                SysInfoLoader::default_app_mime(app_type),
                target.clone(),
            ),
            Action::Command(argv) => match try_run(argv) {
                Some(launch) => Effect::Spawn(launch),
                None => Effect::Nothing,
            },
            Action::Session(operation) => Effect::Session(self.session_mgr.perform(operation)),
            Action::CopyToClipboard(text) => Effect::Clipboard(text.clone()),
        };
        (PostRunAction::Close, effect)
    }

    /// Runs the first shown suggestion with the given id. The id must be one
    /// of the list that `get_suggestions` returns now.
    pub fn run_by_id(&self, id: &str) -> (outcome: (PostRunAction, Effect))
        requires
            has_id(self.relevant(), id@),
        ensures
            outcome.0 == PostRunAction::Close,
            exists|at: int|
                first_with_id(self.relevant(), id@, at) && outcome.1@ == effect_of(
                    self.relevant()[at].action,
                ),
    {
        proof {
            use_type_invariant(self);
        }
        match self.try_get_suggestion_by_id(id) {
            Some(suggestion) => self.run(suggestion),
            None => {
                proof {
                    assert(false);
                }
                (PostRunAction::Close, Effect::Nothing)
            },
        }
    }

    /// The suggestions that do not depend on the input: one for each listed
    /// catalog entry, then one for each enabled session operation.
    pub fn load_static_items(
        desktop_entries: &Vec<CatalogEntry>,
        session_mgr: &SessionMgr,
    ) -> (items: Vec<Suggestion>)
        ensures
            views(items@) == static_items_of(catalog(desktop_entries@), *session_mgr),
    {
        let mut items: Vec<Suggestion> = Vec::new();
        let mut i: usize = 0;
        assert(catalog(desktop_entries@).take(0) =~= Seq::<CatalogEntryView>::empty());
        assert(views(items@) =~= Seq::<SuggestionView>::empty());
        while i < desktop_entries.len()
            invariant
                i <= desktop_entries.len(),
                views(items@) == catalog_suggestions(catalog(desktop_entries@).take(i as int)),
            decreases desktop_entries.len() - i,
        {
            let ghost before = items@;
            let ghost next = catalog(desktop_entries@).take(i + 1);
            assert(next.drop_last() =~= catalog(desktop_entries@).take(i as int));
            assert(next.last() == desktop_entries@[i as int]@);
            let e = &desktop_entries[i];
            if !e.no_display && e.command.is_some() {
                items.push(Suggestion::from(e));
                assert(views(items@) =~= views(before).push(catalog_suggestion(e@)));
            }
            i += 1;
        }
        assert(catalog(desktop_entries@).take(desktop_entries.len() as int) =~= catalog(
            desktop_entries@,
        ));
        let ghost from_catalog = views(items@);
        if session_mgr.enable_suspend {
            items.push(make_session_suggestion(SessionOperation::Suspend));
        }
        assert(views(items@) =~= from_catalog + session_suggestion_if(
            *session_mgr,
            SessionOperation::Suspend,
        ));
        let ghost with_suspend = views(items@);
        if session_mgr.enable_reboot {
            items.push(make_session_suggestion(SessionOperation::Reboot));
        }
        assert(views(items@) =~= with_suspend + session_suggestion_if(
            *session_mgr,
            SessionOperation::Reboot,
        ));
        let ghost with_reboot = views(items@);
        if session_mgr.enable_poweroff {
            items.push(make_session_suggestion(SessionOperation::PowerOff));
        }
        assert(views(items@) =~= with_reboot + session_suggestion_if(
            *session_mgr,
            SessionOperation::PowerOff,
        ));
        assert(views(items@) =~= static_items_of(catalog(desktop_entries@), *session_mgr));
        items
    }

    /// The static suggestions whose title contains the input, letter case
    /// ignored, in their order.
    pub fn filter_relevant_static_items(&self, input: &str) -> (items: Vec<Suggestion>)
        ensures
            views(items@) == relevant_static_of(self.statics(), input@),
    {
        let mut items: Vec<Suggestion> = Vec::new();
        let mut i: usize = 0;
        assert(self.statics().take(0) =~= Seq::<SuggestionView>::empty());
        assert(views(items@) =~= Seq::<SuggestionView>::empty());
        while i < self.static_items.len()
            invariant
                i <= self.static_items.len(),
                views(items@) == relevant_static_of(self.statics().take(i as int), input@),
            decreases self.static_items.len() - i,
        {
            let ghost before = items@;
            let ghost next = self.statics().take(i + 1);
            assert(next.drop_last() =~= self.statics().take(i as int));
            assert(next.last() == self.static_items@[i as int]@);
            let item = &self.static_items[i];
            if contains_ignore_case(item.title.as_str(), input) {
                items.push(item.clone());
                assert(views(items@) =~= views(before).push(item@));
            }
            i += 1;
        }
        assert(self.statics().take(self.static_items.len() as int) =~= self.statics());
        items
    }

    /// The list for an input: the matching static suggestions, then what the
    /// providers give.
    pub fn get_relevant_items(&self, input: &str, facts: &Facts) -> (items: Vec<Suggestion>)
        ensures
            views(items@) == relevant_items_of(self.statics(), input@, facts@),
    {
        let mut items = self.filter_relevant_static_items(input);
        let mut dynamic = SuggestionMgr::load_dynamic_items(input, facts);
        let ghost kept = views(items@);
        let ghost given = views(dynamic@);
        items.append(&mut dynamic);
        assert(views(items@) =~= kept + given);
        items
    }
}

/// A copy of a list of suggestions.
pub fn clone_suggestions(list: &Vec<Suggestion>) -> (copy: Vec<Suggestion>)
    ensures
        views(copy@) == views(list@),
{
    let mut copy: Vec<Suggestion> = Vec::new();
    let mut i: usize = 0;
    assert(views(copy@) =~= views(list@).take(0));
    while i < list.len()
        invariant
            i <= list.len(),
            views(copy@) == views(list@).take(i as int),
        decreases list.len() - i,
    {
        let ghost before = copy@;
        let item = list[i].clone();
        copy.push(item);
        assert(views(copy@) =~= views(before).push(list@[i as int]@));
        assert(views(copy@) =~= views(list@).take(i + 1));
        i += 1;
    }
    assert(views(list@).take(list.len() as int) =~= views(list@));
    copy
}

} // verus!
