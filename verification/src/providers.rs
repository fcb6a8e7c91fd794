//! The providers that turn the raw input into suggestions: folders,
//! calculator, base64, unit conversion, web search and command line.

use base64::Engine;
use vstd::prelude::*;
use vstd::utf8::decode_utf8;
use vstd::utf8::valid_utf8;
use crate::conversionutil::conversion_of;
use crate::conversionutil::convert;
use crate::suggestions::concat;
use crate::suggestions::plain;
use crate::suggestions::plain_suggestion;
use crate::suggestions::quote;
use crate::suggestions::quoted;
use crate::suggestions::views;
use crate::suggestions::Action;
use crate::suggestions::ActionView;
use crate::suggestions::Suggestion;
use crate::suggestions::SuggestionMgr;
use crate::suggestions::SuggestionView;
use crate::sysinfo::opt_text;
use crate::sysinfo::DefaultApplicationKind;
use crate::sysinfo::DefaultApplicationType;
use crate::text::contains;
use crate::text::is_substring;
use crate::text::replace;
use crate::text::replace_text;
use crate::text::same_text;
use crate::text::split;
use crate::text::split_text;
use crate::text::texts;
use crate::text::to_uppercase;
use crate::text::trim;
use crate::text::trimmed;
use crate::text::uppercase;

verus! {

/// A numeric literal: optional sign, digits, optional decimal point and
/// fraction, optional exponent.
pub const AMOUNT_PATTERN: &'static str = r"-?\d+\.?\d*(?:[eE][+-]?\d+)?";

/// A run of letters.
pub const UNIT_PATTERN: &'static str = r"[a-zA-Z]+";

/// The text that `evalexpr::eval` gives for an expression, written as the
/// value displays itself; nothing where the expression does not evaluate.
pub uninterp spec fn evaluated(expression: Seq<char>) -> Option<Seq<char>>;

/// The bytes that standard base64 decoding gives for a text; nothing where
/// the text is not base64.
pub uninterp spec fn base64_decoded(encoded: Seq<char>) -> Option<Seq<u8>>;

/// The leftmost match of the regular expression `pattern` in `text`; nothing
/// where there is no match or `pattern` is no regular expression.
pub uninterp spec fn first_match(pattern: Seq<char>, text: Seq<char>) -> Option<Seq<char>>;

/// The parent of a path as `std::path::Path::parent` gives it; nothing where
/// the path ends in a root or is empty.
pub uninterp spec fn parent_path(path: Seq<char>) -> Option<Seq<char>>;

/// The longest expression that is handed to the evaluator, in characters.
pub const MAX_EXPRESSION_LEN: usize = 1024;

/// The expression names a function of the evaluator that can stop the
/// program instead of reporting an error: taking a substring at a position
/// inside a character, shifting by more bits than an integer has, or the
/// absolute value of the least integer.
pub open spec fn names_faulting_function(expression: Seq<char>) -> bool {
    ||| is_substring("substring"@, expression)
    ||| is_substring("shl"@, expression)
    ||| is_substring("shr"@, expression)
    ||| is_substring("abs"@, expression)
}

/// The expression can be handed to the evaluator: it is not too long to be
/// nested deeper than the evaluator can follow, and names no function that
/// can stop the program.
pub open spec fn can_evaluate(expression: Seq<char>) -> bool {
    expression.len() <= MAX_EXPRESSION_LEN && !names_faulting_function(expression)
}

/// Evaluates an expression with `evalexpr::eval` and writes the value down as
/// it displays itself. The contract claims only that the outcome is a
/// function of the expression. Expressions that could stop the program are
/// left out.
#[verifier::external_body]
fn eval(expression: &str) -> (value: Option<String>)
    requires
        can_evaluate(expression@),
    ensures
        opt_text(value) == evaluated(expression@),
{
    evalexpr::eval(expression).ok().map(|value| value.to_string())
}

/// Decodes with the standard base64 engine of the `base64` crate
/// (`Engine::decode`). The contract claims only that the outcome is a
/// function of the text.
#[verifier::external_body]
fn base64_decode(encoded: &str) -> (bytes: Option<Vec<u8>>)
    ensures
        bytes is Some <==> base64_decoded(encoded@) is Some,
        bytes is Some ==> base64_decoded(encoded@) == Some(bytes->0@),
{
    base64::engine::general_purpose::STANDARD.decode(encoded).ok()
}

/// Reads bytes as UTF-8 with `String::from_utf8`: the decoded text where the
/// bytes are valid UTF-8, nothing otherwise.
#[verifier::external_body]
fn utf8_text(bytes: Vec<u8>) -> (text: Option<String>)
    ensures
        text is Some <==> valid_utf8(bytes@),
        text is Some ==> text->0@ == decode_utf8(bytes@),
{
    String::from_utf8(bytes).ok()
}

/// Compiles `pattern` with `regex::Regex::new` and searches `text` with
/// `Regex::find`. The contract claims only that the outcome is a function of
/// the pattern and the text.
#[verifier::external_body]
fn find_match(pattern: &str, text: &str) -> (found: Option<String>)
    ensures
        opt_text(found) == first_match(pattern@, text@),
{
    regex::Regex::new(pattern).ok().and_then(|re| re.find(text).map(|m| m.as_str().to_string()))
}

/// The parent of `path` by `std::path::Path::parent`. The contract claims
/// only that the outcome is a function of the path.
#[verifier::external_body]
fn parent_of(path: &str) -> (parent: Option<String>)
    ensures
        opt_text(parent) == parent_path(path@),
{
    std::path::Path::new(path).parent().map(|p| p.to_string_lossy().into_owned())
}

/// One entry of a directory listing.
#[derive(Debug, PartialEq, Eq)]
pub struct FolderEntry {
    pub path: String,
    pub is_dir: bool,
}

/// A `FolderEntry` as a mathematical value.
pub struct FolderEntryView {
    pub path: Seq<char>,
    pub is_dir: bool,
}

impl View for FolderEntry {
    type V = FolderEntryView;

    open spec fn view(&self) -> FolderEntryView {
        FolderEntryView { path: self.path@, is_dir: self.is_dir }
    }
}

/// An amount and what it converts to, both written for display.
#[derive(Debug, PartialEq, Eq)]
pub struct ConvertedAmount {
    pub amount: String,
    pub result: String,
}

/// A `ConvertedAmount` as a mathematical value.
pub struct ConvertedAmountView {
    pub amount: Seq<char>,
    pub result: Seq<char>,
}

impl View for ConvertedAmount {
    type V = ConvertedAmountView;

    open spec fn view(&self) -> ConvertedAmountView {
        ConvertedAmountView { amount: self.amount@, result: self.result@ }
    }
}

/// What the host has found out about the machine for one input.
#[derive(Debug, PartialEq, Eq)]
pub struct Facts {
    /// The user's home directory.
    pub home: String,
    /// Whether the input, with the home directory filled in, is a directory.
    pub is_dir: bool,
    /// The entries of the directory that `listing_root` names for the input.
    pub children: Vec<FolderEntry>,
    /// The amount that `parse_conversion` finds in the input, converted as
    /// `convert` says; nothing where there is no such amount.
    pub converted: Option<ConvertedAmount>,
}

/// `Facts` as a mathematical value.
pub struct FactsView {
    pub home: Seq<char>,
    pub is_dir: bool,
    pub children: Seq<FolderEntryView>,
    pub converted: Option<ConvertedAmountView>,
}

/// The entries of a listing as mathematical values.
pub open spec fn entries(list: Seq<FolderEntry>) -> Seq<FolderEntryView> {
    list.map_values(|e: FolderEntry| e@)
}

/// An optional converted amount as a mathematical value.
pub open spec fn opt_converted(value: Option<ConvertedAmount>) -> Option<ConvertedAmountView> {
    match value {
        Some(c) => Some(c@),
        None => None,
    }
}

impl View for Facts {
    type V = FactsView;

    open spec fn view(&self) -> FactsView {
        FactsView {
            home: self.home@,
            is_dir: self.is_dir,
            children: entries(self.children@),
            converted: opt_converted(self.converted),
        }
    }
}

/// The request for a conversion read from an input: the amount as written,
/// the unit it is in, and the unit asked for.
#[derive(Debug, PartialEq, Eq)]
pub struct ConversionQuery {
    pub amount: String,
    pub unit: String,
    pub target: String,
}

/// A `ConversionQuery` as a mathematical value.
pub struct ConversionQueryView {
    pub amount: Seq<char>,
    pub unit: Seq<char>,
    pub target: Seq<char>,
}

impl View for ConversionQuery {
    type V = ConversionQueryView;

    open spec fn view(&self) -> ConversionQueryView {
        ConversionQueryView { amount: self.amount@, unit: self.unit@, target: self.target@ }
    }
}

/// An optional query as a mathematical value.
pub open spec fn opt_query(value: Option<ConversionQuery>) -> Option<ConversionQueryView> {
    match value {
        Some(q) => Some(q@),
        None => None,
    }
}

/// `input` with a leading `~` replaced by the home directory.
pub open spec fn expand_home_of(input: Seq<char>, home: Seq<char>) -> Seq<char> {
    if input.len() > 0 && input[0] == '~' {
        home + input.subrange(1, input.len() as int)
    } else {
        input
    }
}

/// The directory whose entries complete a path: the path itself where it
/// ends with the separator, else its parent.
pub open spec fn listing_root_of(path: Seq<char>) -> Option<Seq<char>> {
    if path.len() > 0 && path.last() == '/' {
        Some(path)
    } else {
        parent_path(path)
    }
}

/// The suggestion that opens the directory the input names.
pub open spec fn open_folder(input: Seq<char>, expanded: Seq<char>) -> SuggestionView {
    plain(
        "system.folder.open "@ + input,
        quoted("Open folder: '"@, input),
        ActionView::Open(DefaultApplicationKind::FileExplorer, expanded),
    )
}

/// The suggestion that opens a directory found beside the input, and
/// completes the input to it.
pub open spec fn open_child(path: Seq<char>) -> SuggestionView {
    SuggestionView {
        id: "system.folder.open "@ + path,
        title: quoted("Open folder: '"@, path),
        description: Seq::empty(),
        icon_path: None,
        action: ActionView::Open(DefaultApplicationKind::FileExplorer, path),
        completion: Some(path + "/"@),
    }
}

/// An entry is offered when it is a directory whose path contains the
/// expanded input without being equal to it, letter case ignored.
pub open spec fn is_offered(expanded: Seq<char>, entry: FolderEntryView) -> bool {
    &&& entry.is_dir
    &&& is_substring(uppercase(expanded), uppercase(entry.path))
    &&& uppercase(entry.path) != uppercase(expanded)
}

/// The suggestions for the offered entries of a listing, in its order.
pub open spec fn child_suggestions(expanded: Seq<char>, children: Seq<FolderEntryView>) -> Seq<
    SuggestionView,
>
    decreases children.len(),
{
    if children.len() == 0 {
        Seq::empty()
    } else if is_offered(expanded, children.last()) {
        child_suggestions(expanded, children.drop_last()).push(open_child(children.last().path))
    } else {
        child_suggestions(expanded, children.drop_last())
    }
}

/// What the folder provider gives for an input.
pub open spec fn folder_suggestions_of(input: Seq<char>, facts: FactsView) -> Seq<SuggestionView> {
    let expanded = expand_home_of(input, facts.home);
    let own = if facts.is_dir {
        seq![open_folder(input, expanded)]
    } else {
        Seq::empty()
    };
    let beside = if listing_root_of(expanded) is Some {
        child_suggestions(expanded, facts.children)
    } else {
        Seq::empty()
    };
    own + beside
}

/// What the calculator gives for the value of an expression.
pub open spec fn math_suggestions_for(value: Option<Seq<char>>) -> Seq<SuggestionView> {
    match value {
        Some(text) => seq![
            plain("evaluation.calc"@, quoted("Result: '"@, text), ActionView::CopyToClipboard(text)),
        ],
        None => Seq::empty(),
    }
}

/// What the calculator gives for an input: the value of the input as an
/// expression, where it can be handed to the evaluator.
pub open spec fn math_suggestions_of(input: Seq<char>) -> Seq<SuggestionView> {
    if can_evaluate(input) {
        math_suggestions_for(evaluated(input))
    } else {
        Seq::empty()
    }
}

/// What the base64 provider gives for decoded bytes.
pub open spec fn b64_suggestions_for(bytes: Option<Seq<u8>>) -> Seq<SuggestionView> {
    if bytes is Some && valid_utf8(bytes->0) {
        let text = decode_utf8(bytes->0);
        seq![
            plain(
                "evaluation.b64"@,
                quoted("Base64 converted text: '"@, text),
                ActionView::CopyToClipboard(text),
            ),
        ]
    } else {
        Seq::empty()
    }
}

/// What the base64 provider gives for an input.
pub open spec fn b64_suggestions_of(input: Seq<char>) -> Seq<SuggestionView> {
    b64_suggestions_for(base64_decoded(input))
}

/// The query made of what was found in the two sides of an input.
pub open spec fn conversion_query_for(
    amount: Option<Seq<char>>,
    unit: Option<Seq<char>>,
    target: Seq<char>,
) -> Option<ConversionQueryView> {
    if amount is Some && unit is Some {
        Some(ConversionQueryView { amount: amount->0, unit: unit->0, target })
    } else {
        None
    }
}

/// The conversion request that an input holds: the input is cut at `to`; the
/// amount and the unit are the first numeric literal and the first run of
/// letters before the first cut, the target what stands between the first cut
/// and the second, without the white space around it.
pub open spec fn conversion_query(input: Seq<char>) -> Option<ConversionQueryView> {
    let parts = split_text(input, "to"@);
    if parts.len() < 2 {
        None
    } else {
        conversion_query_for(
            first_match(AMOUNT_PATTERN@, parts[0]),
            first_match(UNIT_PATTERN@, parts[0]),
            trimmed(parts[1]),
        )
    }
}

/// What the unit-conversion provider gives for a query and the converted
/// amount: one suggestion where a category knows both units and the amount
/// was converted.
pub open spec fn unit_conversion_suggestions_for(
    query: ConversionQueryView,
    converted: Option<ConvertedAmountView>,
) -> Seq<SuggestionView> {
    if conversion_of(query.unit, query.target) is Ok && converted is Some {
        seq![
            plain(
                "evaluation.unit-conversion"@,
                converted->0.amount + query.unit + " = "@ + converted->0.result + query.target,
                ActionView::NoOp,
            ),
        ]
    } else {
        Seq::empty()
    }
}

/// What the unit-conversion provider gives for an input.
pub open spec fn unit_conversion_suggestions_of(
    input: Seq<char>,
    converted: Option<ConvertedAmountView>,
) -> Seq<SuggestionView> {
    match conversion_query(input) {
        Some(query) => unit_conversion_suggestions_for(query, converted),
        None => Seq::empty(),
    }
}

/// The address of the web search for a query: spaces become `+`.
pub open spec fn search_url_of(query: Seq<char>) -> Seq<char> {
    "search.brave.com/search?source=desktop&q="@ + replace_text(query, " "@, "+"@)
}

/// The suggestion that searches the web for the input.
pub open spec fn search_suggestion_of(input: Seq<char>) -> SuggestionView {
    plain(
        "action.search"@,
        quoted("Search: '"@, input),
        ActionView::Open(DefaultApplicationKind::Browser, search_url_of(input)),
    )
}

/// The suggestion that runs the input as a command line, cut at each space.
pub open spec fn command_suggestion_of(input: Seq<char>) -> SuggestionView {
    plain(
        "system.command"@,
        quoted("Run command: '"@, input),
        ActionView::Command(split_text(input, " "@)),
    )
}

/// Everything the providers give for an input, in their fixed order.
pub open spec fn dynamic_items_of(input: Seq<char>, facts: FactsView) -> Seq<SuggestionView> {
    folder_suggestions_of(input, facts) + math_suggestions_of(input) + b64_suggestions_of(input)
        + unit_conversion_suggestions_of(input, facts.converted) + seq![
        search_suggestion_of(input),
    ] + seq![command_suggestion_of(input)]
}

/// Every suggestion for a directory beside the input opens that directory
/// and completes the input to its path followed by the separator.
pub proof fn lemma_child_suggestions(expanded: Seq<char>, children: Seq<FolderEntryView>)
    ensures
        forall|i: int|
            0 <= i < child_suggestions(expanded, children).len() ==> exists|j: int|
                0 <= j < children.len() && is_offered(expanded, children[j])
                    && #[trigger] child_suggestions(expanded, children)[i] == open_child(
                    children[j].path,
                ),
    decreases children.len(),
{
    if children.len() > 0 {
        let rest = children.drop_last();
        lemma_child_suggestions(expanded, rest);
        let all = child_suggestions(expanded, children);
        assert forall|i: int| 0 <= i < all.len() implies exists|j: int|
            0 <= j < children.len() && is_offered(expanded, children[j]) && #[trigger] all[i]
                == open_child(children[j].path) by {
            if i < child_suggestions(expanded, rest).len() {
                let j = choose|j: int|
                    0 <= j < rest.len() && is_offered(expanded, rest[j]) && child_suggestions(
                        expanded,
                        rest,
                    )[i] == open_child(rest[j].path);
                assert(children[j] == rest[j]);
            } else {
                assert(all[i] == open_child(children[children.len() - 1].path));
            }
        }
    }
}

/// No provider gives a suggestion that asks for a session operation.
pub proof fn lemma_dynamic_items_no_session(input: Seq<char>, facts: FactsView)
    ensures
        forall|i: int|
            0 <= i < dynamic_items_of(input, facts).len() ==> !(#[trigger] dynamic_items_of(
                input,
                facts,
            )[i].action is Session),
{
    let expanded = expand_home_of(input, facts.home);
    lemma_child_suggestions(expanded, facts.children);
    let folder = folder_suggestions_of(input, facts);
    let math = math_suggestions_of(input);
    let b64 = b64_suggestions_of(input);
    let unit = unit_conversion_suggestions_of(input, facts.converted);
    let all = dynamic_items_of(input, facts);
    assert forall|i: int| 0 <= i < folder.len() implies !(#[trigger] folder[i].action is Session) by {
        let own = if facts.is_dir {
            seq![open_folder(input, expanded)]
        } else {
            Seq::empty()
        };
        if i >= own.len() {
            assert(folder[i] == child_suggestions(expanded, facts.children)[i - own.len()]);
        }
    }
    assert forall|i: int| 0 <= i < all.len() implies !(#[trigger] all[i].action is Session) by {
        if i < folder.len() {
            assert(all[i] == folder[i]);
        } else if i < folder.len() + math.len() {
            assert(all[i] == math[i - folder.len()]);
        } else if i < folder.len() + math.len() + b64.len() {
            assert(all[i] == b64[i - folder.len() - math.len()]);
        } else if i < folder.len() + math.len() + b64.len() + unit.len() {
            assert(all[i] == unit[i - folder.len() - math.len() - b64.len()]);
        }
    }
}

/// A list that holds one suggestion.
fn single(suggestion: Suggestion) -> (list: Vec<Suggestion>)
    ensures
        views(list@) == seq![suggestion@],
{
    let mut list: Vec<Suggestion> = Vec::new();
    list.push(suggestion);
    assert(views(list@) =~= seq![suggestion@]);
    list
}

/// A list that holds no suggestion.
fn nothing() -> (list: Vec<Suggestion>)
    ensures
        views(list@) == Seq::<SuggestionView>::empty(),
{
    let list: Vec<Suggestion> = Vec::new();
    assert(views(list@) =~= Seq::<SuggestionView>::empty());
    list
}

/// Whether the expression names a function of the evaluator that can stop
/// the program.
pub fn names_faulting(expression: &str) -> (faulting: bool)
    ensures
        faulting == names_faulting_function(expression@),
{
    contains(expression, "substring") || contains(expression, "shl") || contains(expression, "shr")
        || contains(expression, "abs")
}

/// The address of the web search for `query`.
pub fn get_brave_search_url(query: &str) -> (url: String)
    ensures
        url@ == search_url_of(query@),
{
    let mut url = String::new();
    url.append("search.brave.com/search?source=desktop&q=");
    let encoded = replace(query, " ", "+");
    url.append(encoded.as_str());
    assert(url@ =~= search_url_of(query@));
    url
}

/// Replaces a leading `~` of `input` by `home`.
pub fn expand_home(input: &str, home: &str) -> (expanded: String)
    ensures
        expanded@ == expand_home_of(input@, home@),
{
    let n = input.unicode_len();
    if n > 0 && input.get_char(0) == '~' {
        concat(home, input.substring_char(1, n))
    } else {
        input.to_owned()
    }
}

/// The directory to list for completions of `path`: the path itself where it
/// ends with the separator, else its parent.
pub fn listing_root(path: &str) -> (root: Option<String>)
    ensures
        opt_text(root) == listing_root_of(path@),
{
    let n = path.unicode_len();
    if n > 0 && path.get_char(n - 1) == '/' {
        Some(path.to_owned())
    } else {
        parent_of(path)
    }
}

/// The calculator's suggestion for the value of an expression, if it has one.
pub fn math_suggestions_from(value: Option<String>) -> (list: Vec<Suggestion>)
    ensures
        views(list@) == math_suggestions_for(opt_text(value)),
{
    match value {
        Some(text) => {
            let title = quote("Result: '", text.as_str());
            single(plain_suggestion("evaluation.calc", title, Action::CopyToClipboard(text)))
        },
        None => nothing(),
    }
}

/// The base64 provider's suggestion for decoded bytes: one where there are
/// bytes and they are valid UTF-8.
pub fn b64_suggestions_from(bytes: Option<Vec<u8>>) -> (list: Vec<Suggestion>)
    ensures
        views(list@) == b64_suggestions_for(
            match bytes {
                Some(b) => Some(b@),
                None => None,
            },
        ),
{
    match bytes {
        Some(b) => match utf8_text(b) {
            Some(text) => {
                let title = quote("Base64 converted text: '", text.as_str());
                single(plain_suggestion("evaluation.b64", title, Action::CopyToClipboard(text)))
            },
            None => nothing(),
        },
        None => nothing(),
    }
}

/// The query made of an amount and a unit, where both were found.
pub fn conversion_query_from(
    amount: Option<String>,
    unit: Option<String>,
    target: String,
) -> (query: Option<ConversionQuery>)
    ensures
        opt_query(query) == conversion_query_for(opt_text(amount), opt_text(unit), target@),
{
    match amount {
        Some(amount) => match unit {
            Some(unit) => Some(ConversionQuery { amount, unit, target }),
            None => None,
        },
        None => None,
    }
}

/// Reads a conversion request such as `5 km to mi` from the input.
pub fn parse_conversion(input: &str) -> (query: Option<ConversionQuery>)
    ensures
        opt_query(query) == conversion_query(input@),
{
    let parts = split(input, "to");
    if parts.len() < 2 {
        return None;
    }
    assert(texts(parts@)[0] == parts@[0]@);
    assert(texts(parts@)[1] == parts@[1]@);
    let from_arm = parts[0].as_str();
    let amount = find_match(AMOUNT_PATTERN, from_arm);
    let unit = find_match(UNIT_PATTERN, from_arm);
    let target = trim(parts[1].as_str());
    conversion_query_from(amount, unit, target)
}

/// The unit-conversion suggestion for a query, where a category knows both
/// of its units and the converted amount is at hand.
pub fn unit_conversion_suggestions_from(
    query: &ConversionQuery,
    converted: &Option<ConvertedAmount>,
) -> (list: Vec<Suggestion>)
    ensures
        views(list@) == unit_conversion_suggestions_for(query@, opt_converted(*converted)),
{
    match convert(query.unit.as_str(), query.target.as_str()) {
        Ok(_) => match converted {
            Some(c) => {
                let mut title = c.amount.clone();
                title.append(query.unit.as_str());
                title.append(" = ");
                title.append(c.result.as_str());
                title.append(query.target.as_str());
                single(plain_suggestion("evaluation.unit-conversion", title, Action::NoOp))
            },
            None => nothing(),
        },
        Err(_) => nothing(),
    }
}

impl SuggestionMgr {
    /// The calculator: one suggestion with the value of the input where the
    /// input is an expression that evaluates, none otherwise. Inputs that the
    /// evaluator could not be trusted with are not evaluated.
    pub fn get_math_suggestions(input: &str) -> (list: Vec<Suggestion>)
        ensures
            views(list@) == math_suggestions_of(input@),
    {
        if input.unicode_len() <= MAX_EXPRESSION_LEN && !names_faulting(input) {
            math_suggestions_from(eval(input))
        } else {
            nothing()
        }
    }

    /// The base64 provider: one suggestion with the decoded text where the
    /// input is standard base64 of valid UTF-8, none otherwise.
    pub fn get_b64_conversion_suggestions(input: &str) -> (list: Vec<Suggestion>)
        ensures
            views(list@) == b64_suggestions_of(input@),
    {
        b64_suggestions_from(base64_decode(input))
    }

    /// The unit-conversion provider: one suggestion where the input holds a
    /// conversion request between two units of one category and the converted
    /// amount is at hand, none otherwise.
    pub fn get_unit_conversion_suggestions(
        input: &str,
        converted: &Option<ConvertedAmount>,
    ) -> (list: Vec<Suggestion>)
        ensures
            views(list@) == unit_conversion_suggestions_of(input@, opt_converted(*converted)),
    {
        match parse_conversion(input) {
            Some(query) => unit_conversion_suggestions_from(&query, converted),
            None => nothing(),
        }
    }

    /// The folder provider: a suggestion that opens the directory the input
    /// names, where it is one, and one for each offered directory beside it.
    pub fn get_folder_suggestions(input: &str, facts: &Facts) -> (list: Vec<Suggestion>)
        ensures
            views(list@) == folder_suggestions_of(input@, facts@),
    {
        let mut list: Vec<Suggestion> = Vec::new();
        let expanded = expand_home(input, facts.home.as_str());
        assert(views(list@) =~= Seq::<SuggestionView>::empty());
        if facts.is_dir {
            list.push(
                plain_suggestion(
                    concat("system.folder.open ", input).as_str(),
                    quote("Open folder: '", input),
                    Action::Open(DefaultApplicationType::FileExplorer, expanded.clone()),
                ),
            );
            assert(views(list@) =~= seq![open_folder(input@, expanded@)]);
        }
        let ghost own = views(list@);
        if listing_root(expanded.as_str()).is_some() {
            let upper = to_uppercase(expanded.as_str());
            let mut i: usize = 0;
            assert(facts@.children.take(0) =~= Seq::<FolderEntryView>::empty());
            assert(views(list@) =~= own + child_suggestions(expanded@, facts@.children.take(0)));
            while i < facts.children.len()
                invariant
                    i <= facts.children.len(),
                    upper@ == uppercase(expanded@),
                    views(list@) == own + child_suggestions(
                        expanded@,
                        facts@.children.take(i as int),
                    ),
                decreases facts.children.len() - i,
            {
                let ghost before = list@;
                let ghost next = facts@.children.take(i + 1);
                assert(next.drop_last() =~= facts@.children.take(i as int));
                assert(next.last() == facts.children@[i as int]@);
                let entry = &facts.children[i];
                let entry_upper = to_uppercase(entry.path.as_str());
                if entry.is_dir && contains(entry_upper.as_str(), upper.as_str()) && !same_text(
                    entry_upper.as_str(),
                    upper.as_str(),
                ) {
                    let suggestion = Suggestion {
                        id: concat("system.folder.open ", entry.path.as_str()),
                        title: quote("Open folder: '", entry.path.as_str()),
                        description: String::new(),
                        icon_path: None,
                        action: Action::Open(
                            DefaultApplicationType::FileExplorer,
                            entry.path.clone(),
                        ),
                        completion: Some(concat(entry.path.as_str(), "/")),
                    };
                    assert(suggestion@ == open_child(entry.path@));
                    list.push(suggestion);
                    assert(views(list@) =~= views(before).push(open_child(entry.path@)));
                }
                assert(views(list@) =~= own + child_suggestions(expanded@, next));
                i += 1;
            }
            assert(facts@.children.take(facts.children.len() as int) =~= facts@.children);
        } else {
            assert(views(list@) =~= own + Seq::<SuggestionView>::empty());
        }
        list
    }

    /// Runs every provider on the input and puts their suggestions one after
    /// another: folders, calculator, base64, unit conversion, then always the
    /// web search and the command line.
    pub fn load_dynamic_items(input: &str, facts: &Facts) -> (list: Vec<Suggestion>)
        ensures
            views(list@) == dynamic_items_of(input@, facts@),
    {
        let mut list = SuggestionMgr::get_folder_suggestions(input, facts);
        let mut math = SuggestionMgr::get_math_suggestions(input);
        let mut b64 = SuggestionMgr::get_b64_conversion_suggestions(input);
        let mut unit = SuggestionMgr::get_unit_conversion_suggestions(input, &facts.converted);
        let ghost folder_part = views(list@);
        let ghost math_part = views(math@);
        let ghost b64_part = views(b64@);
        let ghost unit_part = views(unit@);
        list.append(&mut math);
        list.append(&mut b64);
        list.append(&mut unit);
        assert(views(list@) =~= folder_part + math_part + b64_part + unit_part);
        let search = plain_suggestion(
            "action.search",
            quote("Search: '", input),
            Action::Open(DefaultApplicationType::Browser, get_brave_search_url(input)),
        );
        let command = plain_suggestion(
            "system.command",
            quote("Run command: '", input),
            Action::Command(split(input, " ")),
        );
        list.push(search);
        list.push(command);
        assert(views(list@) =~= dynamic_items_of(input@, facts@));
        list
    }
}

} // verus!
