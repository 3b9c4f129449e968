//! Tool calls as the transcript shows them: names, summaries, shell commands
//! and edits, read from the JSON arguments of the call.
use crate::controls::DesktopIcon;
use crate::text::{
    begins_with, characters, decimal, decimal_text, join2, join3, lemma_line_end,
    lemma_lines_hold_no_feed, lines, occurs_at, optional_text, position_of, same_text, spelled,
    split_lines, strip_prefix, texts, without_return,
};
use vstd::prelude::*;

verus! {

/// The part of a text before the first separator, or all of it.
pub open spec fn before(text: Seq<char>, separator: Seq<char>) -> Seq<char>
    decreases text.len(),
{
    if text.len() == 0 || begins_with(text, separator) {
        Seq::empty()
    } else {
        seq![text[0]] + before(text.skip(1), separator)
    }
}

proof fn lemma_before(text: Seq<char>, separator: Seq<char>, at: int)
    requires
        0 <= at <= text.len(),
        forall|i: int| 0 <= i < at ==> !occurs_at(text, separator, i),
        at == text.len() || occurs_at(text, separator, at),
    ensures
        before(text, separator) == text.take(at),
    decreases text.len(),
{
    if at == 0 {
        if text.len() > 0 {
            assert(text.subrange(0, separator.len() as int) =~= text.take(separator.len() as int));
        }
        assert(text.take(0) =~= Seq::<char>::empty());
    } else {
        let rest = text.skip(1);
        assert(!begins_with(text, separator)) by {
            if begins_with(text, separator) {
                assert(text.subrange(0, separator.len() as int) =~= text.take(
                    separator.len() as int,
                ));
                assert(occurs_at(text, separator, 0));
            }
        }
        assert forall|i: int| 0 <= i < at - 1 implies !occurs_at(rest, separator, i) by {
            if occurs_at(rest, separator, i) {
                assert(rest.subrange(i, i + separator.len()) =~= text.subrange(
                    i + 1,
                    i + 1 + separator.len(),
                ));
                assert(occurs_at(text, separator, i + 1));
            }
        }
        if at < text.len() {
            assert(rest.subrange(at - 1, at - 1 + separator.len()) =~= text.subrange(
                at,
                at + separator.len(),
            ));
            assert(occurs_at(rest, separator, at - 1));
        }
        lemma_before(rest, separator, at - 1);
        assert(seq![text[0]] + rest.take(at - 1) =~= text.take(at));
    }
}

/// The name of the tool that a block's title tells.
pub open spec fn tool_name(title: Seq<char>) -> Seq<char> {
    if begins_with(title, "Tool · "@) {
        before(title.skip("Tool · "@.len() as int), " · "@)
    } else {
        title
    }
}

pub fn tool_name_from_title(title: &str) -> (name: String)
    ensures
        name@ == tool_name(title@),
{
    match strip_prefix(title, "Tool · ") {
        Some(rest) => {
            let chars = characters(rest);
            let separator = characters(" · ");
            let end: usize = match position_of(&chars, &separator, 0) {
                Some(at) => at,
                None => chars.len(),
            };
            proof {
                lemma_before(chars@, separator@, end as int);
                assert(chars@.take(end as int) =~= chars@.subrange(0, end as int));
            }
            spelled(&chars, 0, end)
        },
        None => title.to_owned(),
    }
}

/// What a tool does, as far as the transcript tells tools apart.
#[derive(Debug, Clone, Copy, PartialEq, Eq, Structural)]
pub enum ToolKind {
    Shell,
    Edit,
    Read,
    Other,
}

/// The kind of the tool with a name.
pub open spec fn kind_of_tool(name: Seq<char>) -> ToolKind {
    if name == "bash"@ || name == "shell"@ {
        ToolKind::Shell
    } else if name == "edit"@ {
        ToolKind::Edit
    } else if name == "read"@ {
        ToolKind::Read
    } else {
        ToolKind::Other
    }
}

pub fn tool_kind(name: &str) -> (kind: ToolKind)
    ensures
        kind == kind_of_tool(name@),
{
    if same_text(name, "bash") || same_text(name, "shell") {
        ToolKind::Shell
    } else if same_text(name, "edit") {
        ToolKind::Edit
    } else if same_text(name, "read") {
        ToolKind::Read
    } else {
        ToolKind::Other
    }
}

/// The label of a kind of tool.
pub open spec fn tool_label(kind: ToolKind) -> Seq<char> {
    match kind {
        ToolKind::Shell => "Shell"@,
        ToolKind::Edit => "Edit"@,
        ToolKind::Read => "Read"@,
        ToolKind::Other => "Tool"@,
    }
}

pub fn tool_display_label(name: &str) -> (label: &'static str)
    ensures
        label@ == tool_label(kind_of_tool(name@)),
{
    match tool_kind(name) {
        ToolKind::Shell => "Shell",
        ToolKind::Edit => "Edit",
        ToolKind::Read => "Read",
        ToolKind::Other => "Tool",
    }
}

/// Every tool but a reading one has details to show.
pub fn tool_is_expandable(name: &str) -> (expandable: bool)
    ensures
        expandable == !(kind_of_tool(name@) is Read),
{
    tool_kind(name) != ToolKind::Read
}

pub fn tool_disclosure_icon(expanded: bool) -> (icon: DesktopIcon)
    ensures
        icon == (if expanded {
            DesktopIcon::ChevronDown
        } else {
            DesktopIcon::ChevronRight
        }),
{
    if expanded {
        DesktopIcon::ChevronDown
    } else {
        DesktopIcon::ChevronRight
    }
}

/// A member of a JSON object inside an array: its name, and its text where it
/// is a string.
#[derive(Debug, PartialEq, Eq)]
pub struct JsonText {
    pub name: String,
    pub text: Option<String>,
}

/// A member of the outermost JSON object: its name, its text where it is a
/// string, its number where it is a natural number of 64 bits, and the members
/// of the objects in it where it is an array.
#[derive(Debug, PartialEq, Eq)]
pub struct JsonField {
    pub name: String,
    pub text: Option<String>,
    pub integer: Option<u64>,
    pub elements: Vec<Vec<JsonText>>,
}

#[verifier::ext_equal]
pub struct JsonTextView {
    pub name: Seq<char>,
    pub text: Option<Seq<char>>,
}

#[verifier::ext_equal]
pub struct JsonFieldView {
    pub name: Seq<char>,
    pub text: Option<Seq<char>>,
    pub integer: Option<u64>,
    pub elements: Seq<Seq<JsonTextView>>,
}

impl View for JsonText {
    type V = JsonTextView;

    open spec fn view(&self) -> JsonTextView {
        JsonTextView { name: self.name@, text: optional_text(self.text) }
    }
}

/// The views of the members of one object.
pub open spec fn member_views(members: Seq<JsonText>) -> Seq<JsonTextView> {
    members.map_values(|member: JsonText| member@)
}

impl View for JsonField {
    type V = JsonFieldView;

    open spec fn view(&self) -> JsonFieldView {
        JsonFieldView {
            name: self.name@,
            text: optional_text(self.text),
            integer: self.integer,
            elements: self.elements@.map_values(|members: Vec<JsonText>| member_views(members@)),
        }
    }
}

/// The views of the members of a document.
pub open spec fn field_views(fields: Seq<JsonField>) -> Seq<JsonFieldView> {
    fields.map_values(|field: JsonField| field@)
}

/// The members of a document, where there is one.
pub open spec fn document_view(fields: Option<Vec<JsonField>>) -> Option<Seq<JsonFieldView>> {
    match fields {
        Some(fields) => Some(field_views(fields@)),
        None => None,
    }
}

/// The members of the JSON document that a text spells, none where it spells no
/// document; a document that is no object has no members.
pub uninterp spec fn json_document(text: Seq<char>) -> Option<Seq<JsonFieldView>>;

/// Calls `serde_json::from_str` for a `Value` and reads off what `as_object`,
/// `as_str`, `as_u64` and `as_array` give of it. The result depends on the text
/// alone. Of the grammar nothing is claimed.
#[verifier::external_body]
fn parse_json(text: &str) -> (fields: Option<Vec<JsonField>>)
    ensures
        document_view(fields) == json_document(text@),
{
    let value = serde_json::from_str::<serde_json::Value>(text).ok()?;
    let members = value.as_object().into_iter().flatten();
    Some(members.map(|(name, value)| JsonField {
        name: name.clone(),
        text: value.as_str().map(str::to_owned),
        integer: value.as_u64(),
        elements: value.as_array().into_iter().flatten().map(|item| {
            item.as_object().into_iter().flatten().map(|(name, value)| JsonText {
                name: name.clone(),
                text: value.as_str().map(str::to_owned),
            }).collect()
        }).collect(),
    }).collect())
}

/// The text of the first member with a name among the members of an object.
pub open spec fn member_text(members: Seq<JsonTextView>, name: Seq<char>) -> Option<Seq<char>>
    decreases members.len(),
{
    if members.len() == 0 {
        None
    } else if members[0].name == name {
        members[0].text
    } else {
        member_text(members.skip(1), name)
    }
}

/// The first member of a document with a name.
pub open spec fn field_named(fields: Seq<JsonFieldView>, name: Seq<char>) -> Option<JsonFieldView>
    decreases fields.len(),
{
    if fields.len() == 0 {
        None
    } else if fields[0].name == name {
        Some(fields[0])
    } else {
        field_named(fields.skip(1), name)
    }
}

/// The text of a member of a document.
pub open spec fn field_text(fields: Seq<JsonFieldView>, name: Seq<char>) -> Option<Seq<char>> {
    match field_named(fields, name) {
        Some(field) => field.text,
        None => None,
    }
}

/// The number of a member of a document.
pub open spec fn field_integer(fields: Seq<JsonFieldView>, name: Seq<char>) -> Option<u64> {
    match field_named(fields, name) {
        Some(field) => field.integer,
        None => None,
    }
}

fn find_field<'a>(fields: &'a Vec<JsonField>, name: &str) -> (field: Option<&'a JsonField>)
    ensures
        match field {
            Some(field) => field_named(field_views(fields@), name@) == Some(field@),
            None => field_named(field_views(fields@), name@) is None,
        },
{
    let ghost views = field_views(fields@);
    let mut index: usize = 0;
    assert(views.skip(0) =~= views);
    while index < fields.len()
        invariant
            index <= fields@.len(),
            views == field_views(fields@),
            field_named(views, name@) == field_named(views.skip(index as int), name@),
        decreases fields@.len() - index,
    {
        assert(views.skip(index as int)[0] == fields@[index as int]@);
        if same_text(fields[index].name.as_str(), name) {
            return Some(&fields[index]);
        }
        assert(views.skip(index as int).skip(1) =~= views.skip(index + 1));
        index = index + 1;
    }
    None
}

fn find_text(fields: &Vec<JsonField>, name: &str) -> (text: Option<String>)
    ensures
        optional_text(text) == field_text(field_views(fields@), name@),
{
    match find_field(fields, name) {
        Some(field) => match &field.text {
            Some(text) => Some(text.clone()),
            None => None,
        },
        None => None,
    }
}

fn find_integer(fields: &Vec<JsonField>, name: &str) -> (integer: Option<u64>)
    ensures
        integer == field_integer(field_views(fields@), name@),
{
    match find_field(fields, name) {
        Some(field) => field.integer,
        None => None,
    }
}

fn find_member(members: &Vec<JsonText>, name: &str) -> (text: Option<String>)
    ensures
        optional_text(text) == member_text(member_views(members@), name@),
{
    let ghost views = member_views(members@);
    let mut index: usize = 0;
    assert(views.skip(0) =~= views);
    while index < members.len()
        invariant
            index <= members@.len(),
            views == member_views(members@),
            member_text(views, name@) == member_text(views.skip(index as int), name@),
        decreases members@.len() - index,
    {
        assert(views.skip(index as int)[0] == members@[index as int]@);
        if same_text(members[index].name.as_str(), name) {
            return match &members[index].text {
                Some(text) => Some(text.clone()),
                None => None,
            };
        }
        assert(views.skip(index as int).skip(1) =~= views.skip(index + 1));
        index = index + 1;
    }
    None
}

/// A replacement of one text by another.
#[derive(Debug, PartialEq, Eq)]
pub struct Replacement {
    pub old: String,
    pub new: String,
}

pub struct ReplacementView {
    pub old: Seq<char>,
    pub new: Seq<char>,
}

impl View for Replacement {
    type V = ReplacementView;

    open spec fn view(&self) -> ReplacementView {
        ReplacementView { old: self.old@, new: self.new@ }
    }
}

pub open spec fn replacement_views(replacements: Seq<Replacement>) -> Seq<ReplacementView> {
    replacements.map_values(|replacement: Replacement| replacement@)
}

/// The replacements so far and one more, where both of its texts are there.
pub open spec fn with_replacement(
    replacements: Seq<ReplacementView>,
    old_text: Option<Seq<char>>,
    new_text: Option<Seq<char>>,
) -> Seq<ReplacementView> {
    if old_text is Some && new_text is Some {
        replacements.push(ReplacementView { old: old_text->0, new: new_text->0 })
    } else {
        replacements
    }
}

/// The replacements that the elements of an array tell.
pub open spec fn listed_replacements(elements: Seq<Seq<JsonTextView>>) -> Seq<ReplacementView>
    decreases elements.len(),
{
    if elements.len() == 0 {
        Seq::empty()
    } else {
        with_replacement(
            listed_replacements(elements.drop_last()),
            member_text(elements.last(), "oldText"@),
            member_text(elements.last(), "newText"@),
        )
    }
}

/// All replacements of an edit: those listed under `edits`, then the one that
/// the arguments hold themselves.
pub open spec fn replacements_of(fields: Seq<JsonFieldView>) -> Seq<ReplacementView> {
    with_replacement(
        match field_named(fields, "edits"@) {
            Some(field) => listed_replacements(field.elements),
            None => Seq::empty(),
        },
        field_text(fields, "oldText"@),
        field_text(fields, "newText"@),
    )
}

fn add_replacement(
    replacements: &mut Vec<Replacement>,
    old_text: Option<String>,
    new_text: Option<String>,
)
    ensures
        replacement_views(final(replacements)@) == with_replacement(
            replacement_views(old(replacements)@),
            optional_text(old_text),
            optional_text(new_text),
        ),
{
    let ghost earlier = replacements@;
    match (old_text, new_text) {
        (Some(old_text), Some(new_text)) => {
            replacements.push(Replacement { old: old_text, new: new_text });
            assert(replacement_views(replacements@) =~= replacement_views(earlier).push(
                ReplacementView { old: old_text@, new: new_text@ },
            ));
        },
        _ => {},
    }
}

/// Reads the replacements of an edit from its arguments.
pub fn edit_replacements(fields: &Vec<JsonField>) -> (replacements: Vec<Replacement>)
    ensures
        replacement_views(replacements@) == replacements_of(field_views(fields@)),
{
    let mut replacements: Vec<Replacement> = Vec::new();
    assert(replacement_views(replacements@) =~= Seq::<ReplacementView>::empty());
    if let Some(field) = find_field(fields, "edits") {
        let ghost elements = field@.elements;
        let mut index: usize = 0;
        assert(elements.take(0) =~= Seq::<Seq<JsonTextView>>::empty());
        while index < field.elements.len()
            invariant
                index <= field.elements@.len(),
                elements == field@.elements,
                replacement_views(replacements@) == listed_replacements(
                    elements.take(index as int),
                ),
            decreases field.elements@.len() - index,
        {
            let members = &field.elements[index];
            let old_text = find_member(members, "oldText");
            let new_text = find_member(members, "newText");
            proof {
                assert(elements.take(index + 1).drop_last() =~= elements.take(index as int));
                assert(elements.take(index + 1).last() == member_views(members@));
            }
            add_replacement(&mut replacements, old_text, new_text);
            index = index + 1;
        }
        assert(elements.take(elements.len() as int) =~= elements);
    }
    let old_text = find_text(fields, "oldText");
    let new_text = find_text(fields, "newText");
    add_replacement(&mut replacements, old_text, new_text);
    replacements
}

/// How many lines some replacements add.
pub open spec fn added_lines(replacements: Seq<ReplacementView>) -> nat
    decreases replacements.len(),
{
    if replacements.len() == 0 {
        0
    } else {
        added_lines(replacements.drop_last()) + lines(replacements.last().new).len()
    }
}

/// How many lines some replacements remove.
pub open spec fn removed_lines(replacements: Seq<ReplacementView>) -> nat
    decreases replacements.len(),
{
    if replacements.len() == 0 {
        0
    } else {
        removed_lines(replacements.drop_last()) + lines(replacements.last().old).len()
    }
}

/// Counts the lines that some replacements add and remove.
pub fn count_lines(replacements: &Vec<Replacement>) -> (counts: (u128, u128))
    ensures
        counts.0 == added_lines(replacement_views(replacements@)),
        counts.1 == removed_lines(replacement_views(replacements@)),
{
    let ghost views = replacement_views(replacements@);
    let mut added: u128 = 0;
    let mut removed: u128 = 0;
    let mut index: usize = 0;
    while index < replacements.len()
        invariant
            index <= replacements@.len(),
            views == replacement_views(replacements@),
            added == added_lines(views.take(index as int)),
            removed == removed_lines(views.take(index as int)),
            added <= index * 0xffff_ffff_ffff_ffff,
            removed <= index * 0xffff_ffff_ffff_ffff,
        decreases replacements@.len() - index,
    {
        let new_lines = split_lines(replacements[index].new.as_str());
        let old_lines = split_lines(replacements[index].old.as_str());
        proof {
            assert(views.take(index + 1).drop_last() =~= views.take(index as int));
            assert(views.take(index + 1).last() == replacements@[index as int]@);
            assert(texts(new_lines@).len() == new_lines@.len());
            assert(texts(old_lines@).len() == old_lines@.len());
        }
        added = added + new_lines.len() as u128;
        removed = removed + old_lines.len() as u128;
        index = index + 1;
    }
    assert(views.take(views.len() as int) =~= views);
    (added, removed)
}

/// The first of two documents that is one.
pub open spec fn first_document(
    detail: Option<Seq<JsonFieldView>>,
    text: Option<Seq<JsonFieldView>>,
) -> Option<Seq<JsonFieldView>> {
    if detail is Some {
        detail
    } else {
        text
    }
}

/// The arguments of a tool call: its detail where that is JSON, else its text.
pub fn tool_arguments_json(detail: &str, text: &str) -> (arguments: Option<Vec<JsonField>>)
    ensures
        document_view(arguments) == first_document(json_document(detail@), json_document(text@)),
{
    match parse_json(detail) {
        Some(fields) => Some(fields),
        None => parse_json(text),
    }
}

/// The text of an optional member, nothing where it is missing.
pub open spec fn text_or_nothing(text: Option<Seq<char>>) -> Seq<char> {
    match text {
        Some(text) => text,
        None => Seq::empty(),
    }
}

/// The range that a reading tool was asked for.
pub open spec fn range_text(offset: Option<u64>, limit: Option<u64>) -> Seq<char> {
    match (offset, limit) {
        (Some(offset), Some(limit)) => " ["@ + decimal(offset as nat) + ","@ + decimal(limit as nat)
            + "]"@,
        (Some(offset), None) => " ["@ + decimal(offset as nat) + ",]"@,
        (None, Some(limit)) => " [,"@ + decimal(limit as nat) + "]"@,
        (None, None) => Seq::empty(),
    }
}

/// What a tool call is about, in one line.
pub open spec fn summary_of(kind: ToolKind, arguments: Option<Seq<JsonFieldView>>) -> Seq<char> {
    match arguments {
        None => Seq::empty(),
        Some(fields) => {
            let path = text_or_nothing(field_text(fields, "path"@));
            match kind {
                ToolKind::Shell => text_or_nothing(field_text(fields, "command"@)),
                ToolKind::Read => path + range_text(
                    field_integer(fields, "offset"@),
                    field_integer(fields, "limit"@),
                ),
                ToolKind::Edit => path + " +"@ + decimal(added_lines(replacements_of(fields)))
                    + " -"@ + decimal(removed_lines(replacements_of(fields))),
                ToolKind::Other => Seq::empty(),
            }
        },
    }
}

fn or_nothing(text: Option<String>) -> (value: String)
    ensures
        value@ == text_or_nothing(optional_text(text)),
{
    match text {
        Some(text) => text,
        None => String::new(),
    }
}

fn range_suffix(offset: Option<u64>, limit: Option<u64>) -> (suffix: String)
    ensures
        suffix@ == range_text(offset, limit),
{
    match (offset, limit) {
        (Some(offset), Some(limit)) => {
            let mut suffix = join3(" [", decimal_text(offset as u128).as_str(), ",");
            suffix.append(decimal_text(limit as u128).as_str());
            suffix.append("]");
            suffix
        },
        (Some(offset), None) => join3(" [", decimal_text(offset as u128).as_str(), ",]"),
        (None, Some(limit)) => join3(" [,", decimal_text(limit as u128).as_str(), "]"),
        (None, None) => String::new(),
    }
}

/// Sums a tool call up from arguments that have been read.
pub fn summarize_tool(name: &str, arguments: &Option<Vec<JsonField>>) -> (summary: String)
    ensures
        summary@ == summary_of(kind_of_tool(name@), document_view(*arguments)),
{
    let fields = match arguments {
        Some(fields) => fields,
        None => {
            return String::new();
        },
    };
    match tool_kind(name) {
        ToolKind::Shell => or_nothing(find_text(fields, "command")),
        ToolKind::Read => {
            let mut summary = or_nothing(find_text(fields, "path"));
            let offset: Option<u64> = find_integer(fields, "offset");
            let limit: Option<u64> = find_integer(fields, "limit");
            summary.append(range_suffix(offset, limit).as_str());
            summary
        },
        ToolKind::Edit => {
            let replacements = edit_replacements(fields);
            let (added, removed) = count_lines(&replacements);
            let mut summary = or_nothing(find_text(fields, "path"));
            summary.append(" +");
            summary.append(decimal_text(added).as_str());
            summary.append(" -");
            summary.append(decimal_text(removed).as_str());
            summary
        },
        ToolKind::Other => String::new(),
    }
}

/// Sums a tool call up.
pub fn tool_summary(name: &str, detail: &str, text: &str) -> (summary: String)
    ensures
        summary@ == summary_of(
            kind_of_tool(name@),
            first_document(json_document(detail@), json_document(text@)),
        ),
{
    let arguments = tool_arguments_json(detail, text);
    summarize_tool(name, &arguments)
}

/// Whether a line was removed or added.
#[derive(Debug, Clone, Copy, PartialEq, Eq, Structural)]
pub enum DiffSide {
    Removed,
    Added,
}

/// A line of an edit, with the sign of its side in front.
#[derive(Debug, PartialEq, Eq)]
pub struct DiffLine {
    pub side: DiffSide,
    pub text: String,
}

pub open spec fn side_sign(side: DiffSide) -> Seq<char> {
    match side {
        DiffSide::Removed => "- "@,
        DiffSide::Added => "+ "@,
    }
}

/// Some lines on one side of an edit.
pub open spec fn marked_lines(text: Seq<char>, side: DiffSide) -> Seq<(DiffSide, Seq<char>)> {
    lines(text).map_values(|line: Seq<char>| (side, side_sign(side) + line))
}

/// The lines of an edit: of each replacement first what it removes, then what
/// it adds.
pub open spec fn diff_lines(replacements: Seq<ReplacementView>) -> Seq<(DiffSide, Seq<char>)>
    decreases replacements.len(),
{
    if replacements.len() == 0 {
        Seq::empty()
    } else {
        diff_lines(replacements.drop_last()) + marked_lines(
            replacements.last().old,
            DiffSide::Removed,
        ) + marked_lines(replacements.last().new, DiffSide::Added)
    }
}

pub open spec fn diff_line_views(shown: Seq<DiffLine>) -> Seq<(DiffSide, Seq<char>)> {
    shown.map_values(|line: DiffLine| (line.side, line.text@))
}

fn add_marked_lines(shown: &mut Vec<DiffLine>, text: &str, side: DiffSide)
    ensures
        diff_line_views(final(shown)@) == diff_line_views(old(shown)@) + marked_lines(text@, side),
{
    let split = split_lines(text);
    let ghost earlier = diff_line_views(shown@);
    let ghost marked = marked_lines(text@, side);
    let mut index: usize = 0;
    proof {
        assert(texts(split@).len() == split@.len());
        assert(earlier + marked.take(0) =~= earlier);
    }
    while index < split.len()
        invariant
            index <= split@.len(),
            texts(split@) == lines(text@),
            marked == marked_lines(text@, side),
            marked.len() == split@.len(),
            diff_line_views(shown@) == earlier + marked.take(index as int),
        decreases split@.len() - index,
    {
        let ghost before = shown@;
        let sign = match side {
            DiffSide::Removed => "- ",
            DiffSide::Added => "+ ",
        };
        let line = join2(sign, split[index].as_str());
        shown.push(DiffLine { side, text: line });
        proof {
            assert(texts(split@)[index as int] == split@[index as int]@);
            assert(marked[index as int] == (side, line@));
            assert(diff_line_views(shown@) =~= diff_line_views(before).push((side, line@)));
            assert(earlier + marked.take(index + 1) =~= (earlier + marked.take(index as int)).push(
                marked[index as int],
            ));
        }
        index = index + 1;
    }
    assert(marked.take(marked.len() as int) =~= marked);
}

/// Shows the lines of an edit.
pub fn show_replacements(replacements: &Vec<Replacement>) -> (shown: Vec<DiffLine>)
    ensures
        diff_line_views(shown@) == diff_lines(replacement_views(replacements@)),
{
    let ghost views = replacement_views(replacements@);
    let mut shown: Vec<DiffLine> = Vec::new();
    let mut index: usize = 0;
    assert(diff_line_views(shown@) =~= diff_lines(views.take(0)));
    while index < replacements.len()
        invariant
            index <= replacements@.len(),
            views == replacement_views(replacements@),
            diff_line_views(shown@) == diff_lines(views.take(index as int)),
        decreases replacements@.len() - index,
    {
        add_marked_lines(&mut shown, replacements[index].old.as_str(), DiffSide::Removed);
        add_marked_lines(&mut shown, replacements[index].new.as_str(), DiffSide::Added);
        proof {
            assert(views.take(index + 1).drop_last() =~= views.take(index as int));
            assert(views.take(index + 1).last() == replacements@[index as int]@);
        }
        index = index + 1;
    }
    assert(views.take(views.len() as int) =~= views);
    shown
}

/// The lines of the edit that some arguments tell.
pub open spec fn edit_lines(arguments: Option<Seq<JsonFieldView>>) -> Seq<(DiffSide, Seq<char>)> {
    match arguments {
        Some(fields) => diff_lines(replacements_of(fields)),
        None => Seq::empty(),
    }
}

/// Shows the edit that arguments which have been read tell.
pub fn show_edit(arguments: &Option<Vec<JsonField>>) -> (shown: Vec<DiffLine>)
    ensures
        diff_line_views(shown@) == edit_lines(document_view(*arguments)),
{
    match arguments {
        Some(fields) => show_replacements(&edit_replacements(fields)),
        None => {
            let shown: Vec<DiffLine> = Vec::new();
            assert(diff_line_views(shown@) =~= Seq::<(DiffSide, Seq<char>)>::empty());
            shown
        },
    }
}

/// The lines that the expanded view of an edit shows.
pub fn edit_diff_view(detail: &str, text: &str) -> (shown: Vec<DiffLine>)
    ensures
        diff_line_views(shown@) == edit_lines(
            first_document(json_document(detail@), json_document(text@)),
        ),
{
    let arguments = tool_arguments_json(detail, text);
    show_edit(&arguments)
}

/// Lines joined by line feeds.
pub open spec fn joined_lines(shown: Seq<(DiffSide, Seq<char>)>) -> Seq<char>
    decreases shown.len(),
{
    if shown.len() == 0 {
        Seq::empty()
    } else if shown.len() == 1 {
        shown[0].1
    } else {
        joined_lines(shown.drop_last()) + "\n"@ + shown.last().1
    }
}

/// Joins the lines of an edit.
pub fn join_diff(shown: &Vec<DiffLine>) -> (text: String)
    ensures
        text@ == joined_lines(diff_line_views(shown@)),
{
    let ghost views = diff_line_views(shown@);
    let mut text = String::new();
    let mut index: usize = 0;
    while index < shown.len()
        invariant
            index <= shown@.len(),
            views == diff_line_views(shown@),
            text@ == joined_lines(views.take(index as int)),
        decreases shown@.len() - index,
    {
        proof {
            assert(views.take(index + 1).drop_last() =~= views.take(index as int));
            assert(views.take(index + 1).last() == (
                shown@[index as int].side,
                shown@[index as int].text@,
            ));
        }
        if index != 0 {
            text.append("\n");
        }
        text.append(shown[index].text.as_str());
        assert(text@ =~= joined_lines(views.take(index + 1)));
        index = index + 1;
    }
    assert(views.take(views.len() as int) =~= views);
    text
}

/// The edit of a tool call as text.
pub fn edit_diff_text(detail: &str, text: &str) -> (diff: String)
    ensures
        diff@ == joined_lines(
            edit_lines(first_document(json_document(detail@), json_document(text@))),
        ),
        json_document(detail@) is None && json_document(text@) is None ==> diff@
            == Seq::<char>::empty(),
{
    join_diff(&edit_diff_view(detail, text))
}

/// How many of some lines stand on a side.
pub open spec fn lines_on(shown: Seq<(DiffSide, Seq<char>)>, side: DiffSide) -> nat
    decreases shown.len(),
{
    if shown.len() == 0 {
        0
    } else {
        lines_on(shown.drop_last(), side) + (if shown.last().0 == side {
            1nat
        } else {
            0
        })
    }
}

/// How many of some lines of text begin with a sign.
pub open spec fn lines_with(text_lines: Seq<Seq<char>>, sign: Seq<char>) -> nat
    decreases text_lines.len(),
{
    if text_lines.len() == 0 {
        0
    } else {
        lines_with(text_lines.drop_last(), sign) + (if begins_with(text_lines.last(), sign) {
            1nat
        } else {
            0
        })
    }
}

proof fn lemma_lines_on_adds(
    first: Seq<(DiffSide, Seq<char>)>,
    second: Seq<(DiffSide, Seq<char>)>,
    side: DiffSide,
)
    ensures
        lines_on(first + second, side) == lines_on(first, side) + lines_on(second, side),
    decreases second.len(),
{
    if second.len() == 0 {
        assert(first + second =~= first);
    } else {
        assert((first + second).drop_last() =~= first + second.drop_last());
        lemma_lines_on_adds(first, second.drop_last(), side);
    }
}

proof fn lemma_lines_on_one_side(shown: Seq<(DiffSide, Seq<char>)>, side: DiffSide, other: DiffSide)
    requires
        forall|i: int| 0 <= i < shown.len() ==> (#[trigger] shown[i]).0 == side,
    ensures
        lines_on(shown, other) == (if other == side {
            shown.len()
        } else {
            0
        }),
    decreases shown.len(),
{
    if shown.len() > 0 {
        assert forall|i: int| 0 <= i < shown.drop_last().len() implies (
        #[trigger] shown.drop_last()[i]).0 == side by {
            assert(shown[i].0 == side);
        }
        lemma_lines_on_one_side(shown.drop_last(), side, other);
    }
}

/// The view of an edit shows as many removed lines and as many added ones as
/// its summary counts, and no others.
pub proof fn law_edit_view_shows_the_counted_lines(replacements: Seq<ReplacementView>)
    ensures
        lines_on(diff_lines(replacements), DiffSide::Removed) == removed_lines(replacements),
        lines_on(diff_lines(replacements), DiffSide::Added) == added_lines(replacements),
        diff_lines(replacements).len() == added_lines(replacements) + removed_lines(replacements),
    decreases replacements.len(),
{
    if replacements.len() > 0 {
        law_edit_view_shows_the_counted_lines(replacements.drop_last());
        let earlier = diff_lines(replacements.drop_last());
        let removed = marked_lines(replacements.last().old, DiffSide::Removed);
        let added = marked_lines(replacements.last().new, DiffSide::Added);
        lemma_lines_on_adds(earlier + removed, added, DiffSide::Removed);
        lemma_lines_on_adds(earlier + removed, added, DiffSide::Added);
        lemma_lines_on_adds(earlier, removed, DiffSide::Removed);
        lemma_lines_on_adds(earlier, removed, DiffSide::Added);
        lemma_lines_on_one_side(removed, DiffSide::Removed, DiffSide::Removed);
        lemma_lines_on_one_side(removed, DiffSide::Removed, DiffSide::Added);
        lemma_lines_on_one_side(added, DiffSide::Added, DiffSide::Removed);
        lemma_lines_on_one_side(added, DiffSide::Added, DiffSide::Added);
    }
}

/// Replacements are shown in their order, and of each what it removes stands
/// before what it adds.
pub proof fn law_replacements_are_shown_in_order(replacements: Seq<ReplacementView>, index: int)
    requires
        0 <= index < replacements.len(),
    ensures
        diff_lines(replacements) == diff_lines(replacements.take(index)) + marked_lines(
            replacements[index].old,
            DiffSide::Removed,
        ) + marked_lines(replacements[index].new, DiffSide::Added) + diff_lines(
            replacements.skip(index + 1),
        ),
    decreases replacements.len(),
{
    let shorter = replacements.drop_last();
    if index == replacements.len() - 1 {
        assert(replacements.take(index) =~= shorter);
        assert(replacements.skip(index + 1) =~= Seq::<ReplacementView>::empty());
        assert(diff_lines(replacements) + diff_lines(replacements.skip(index + 1)) =~= diff_lines(
            replacements,
        ));
    } else {
        law_replacements_are_shown_in_order(shorter, index);
        let behind = replacements.skip(index + 1);
        assert(shorter.take(index) =~= replacements.take(index));
        assert(behind.drop_last() =~= shorter.skip(index + 1));
        assert(behind.last() == replacements.last());
        assert(diff_lines(replacements) =~= diff_lines(replacements.take(index)) + marked_lines(
            replacements[index].old,
            DiffSide::Removed,
        ) + marked_lines(replacements[index].new, DiffSide::Added) + diff_lines(behind));
    }
}

/// Whether every line carries the sign of its side and holds no line feed.
pub open spec fn well_signed(shown: Seq<(DiffSide, Seq<char>)>) -> bool {
    forall|i: int|
        0 <= i < shown.len() ==> begins_with(
            (#[trigger] shown[i]).1,
            side_sign(shown[i].0),
        ) && !shown[i].1.contains('\n')
}

proof fn lemma_signs(side: DiffSide)
    ensures
        side_sign(side).len() == 2,
        side_sign(side)[0] == (if side is Removed {
            '-'
        } else {
            '+'
        }),
        side_sign(side)[1] == ' ',
{
    reveal_strlit("- ");
    reveal_strlit("+ ");
}

proof fn lemma_marked_lines_are_signed(text: Seq<char>, side: DiffSide)
    ensures
        well_signed(marked_lines(text, side)),
{
    let marked = marked_lines(text, side);
    lemma_signs(side);
    assert forall|i: int| 0 <= i < marked.len() implies begins_with(
        (#[trigger] marked[i]).1,
        side_sign(marked[i].0),
    ) && !marked[i].1.contains('\n') by {
        let line = lines(text)[i];
        lemma_lines_hold_no_feed(text, i);
        let whole = side_sign(side) + line;
        assert(marked[i] == (side, whole));
        assert(whole.take(2) =~= side_sign(side));
        assert forall|k: int| 0 <= k < whole.len() implies whole[k] != '\n' by {
            if k >= 2 {
                assert(whole[k] == line[k - 2]);
            }
        }
    }
}

proof fn lemma_diff_lines_are_signed(replacements: Seq<ReplacementView>)
    ensures
        well_signed(diff_lines(replacements)),
    decreases replacements.len(),
{
    if replacements.len() > 0 {
        lemma_diff_lines_are_signed(replacements.drop_last());
        lemma_marked_lines_are_signed(replacements.last().old, DiffSide::Removed);
        lemma_marked_lines_are_signed(replacements.last().new, DiffSide::Added);
    }
}

/// Joined lines by their first one.
proof fn lemma_joined_from_the_front(shown: Seq<(DiffSide, Seq<char>)>)
    requires
        shown.len() >= 2,
    ensures
        joined_lines(shown) == shown[0].1 + "\n"@ + joined_lines(shown.skip(1)),
    decreases shown.len(),
{
    let rest = shown.skip(1);
    if shown.len() == 2 {
        assert(joined_lines(shown.drop_last()) == shown[0].1);
        assert(rest[0] == shown[1]);
    } else {
        lemma_joined_from_the_front(shown.drop_last());
        assert(shown.drop_last().skip(1) =~= rest.drop_last());
        assert(joined_lines(shown) =~= shown[0].1 + "\n"@ + joined_lines(rest));
    }
}

/// The lines of the joined text are the lines that were joined, each still with
/// its sign in front.
proof fn lemma_joined_lines_split(shown: Seq<(DiffSide, Seq<char>)>)
    requires
        well_signed(shown),
    ensures
        lines(joined_lines(shown)).len() == shown.len(),
        forall|i: int|
            0 <= i < shown.len() ==> begins_with(
                #[trigger] lines(joined_lines(shown))[i],
                side_sign(shown[i].0),
            ),
    decreases shown.len(),
{
    let text = joined_lines(shown);
    if shown.len() > 0 {
        let first = shown[0].1;
        lemma_signs(shown[0].0);
        assert(begins_with(first, side_sign(shown[0].0)));
        if shown.len() == 1 {
            lemma_line_end(text, text.len() as int);
            assert(lines(text) =~= seq![first]);
        } else {
            let rest = shown.skip(1);
            assert forall|i: int| 0 <= i < rest.len() implies begins_with(
                (#[trigger] rest[i]).1,
                side_sign(rest[i].0),
            ) && !rest[i].1.contains('\n') by {
                assert(rest[i] == shown[i + 1]);
            }
            lemma_joined_lines_split(rest);
            lemma_joined_from_the_front(shown);
            reveal_strlit("\n");
            let end = first.len() as int;
            assert forall|i: int| 0 <= i < end implies text[i] != '\n' by {
                assert(text[i] == first[i]);
            }
            lemma_line_end(text, end);
            assert(text.take(end) =~= first);
            assert(text.skip(end + 1) =~= joined_lines(rest));
            let head = without_return(first);
            assert(head.take(2) =~= first.take(2));
            assert(lines(text) =~= seq![head] + lines(joined_lines(rest)));
            assert forall|i: int| 0 <= i < shown.len() implies begins_with(
                #[trigger] lines(text)[i],
                side_sign(shown[i].0),
            ) by {
                if i > 0 {
                    assert(lines(text)[i] == lines(joined_lines(rest))[i - 1]);
                    assert(rest[i - 1] == shown[i]);
                }
            }
        }
    }
}

proof fn lemma_signs_tell_the_side(
    text_lines: Seq<Seq<char>>,
    shown: Seq<(DiffSide, Seq<char>)>,
    side: DiffSide,
)
    requires
        text_lines.len() == shown.len(),
        forall|i: int|
            0 <= i < shown.len() ==> begins_with(
                #[trigger] text_lines[i],
                side_sign(shown[i].0),
            ),
    ensures
        lines_with(text_lines, side_sign(side)) == lines_on(shown, side),
    decreases shown.len(),
{
    if shown.len() > 0 {
        assert forall|i: int| 0 <= i < shown.drop_last().len() implies begins_with(
            #[trigger] text_lines.drop_last()[i],
            side_sign(shown.drop_last()[i].0),
        ) by {
            assert(begins_with(text_lines[i], side_sign(shown[i].0)));
        }
        lemma_signs_tell_the_side(text_lines.drop_last(), shown.drop_last(), side);
        let last = text_lines.last();
        assert(begins_with(text_lines[shown.len() - 1], side_sign(shown.last().0)));
        lemma_signs(side);
        lemma_signs(shown.last().0);
        if begins_with(last, side_sign(side)) {
            assert(last.take(2)[0] == last[0]);
            assert(side_sign(side)[0] == side_sign(shown.last().0)[0]);
        }
    }
}

/// The text of an edit has one line for each line that the summary counts:
/// those that it counts as removed begin with a minus sign, those that it counts
/// as added with a plus sign, and there are no others. Arguments that could not
/// be read give no text.
pub proof fn law_edit_text_shows_the_counted_lines(arguments: Option<Seq<JsonFieldView>>)
    ensures
        arguments is None ==> joined_lines(edit_lines(arguments)) == Seq::<char>::empty(),
        arguments is Some ==> ({
            let text_lines = lines(joined_lines(edit_lines(arguments)));
            let added = lines_with(text_lines, "+ "@);
            let removed = lines_with(text_lines, "- "@);
            &&& text_lines.len() == added + removed
            &&& summary_of(ToolKind::Edit, arguments) == text_or_nothing(
                field_text(arguments->0, "path"@),
            ) + " +"@ + decimal(added) + " -"@ + decimal(removed)
        }),
{
    if let Some(fields) = arguments {
        let replacements = replacements_of(fields);
        let shown = diff_lines(replacements);
        law_edit_view_shows_the_counted_lines(replacements);
        lemma_diff_lines_are_signed(replacements);
        lemma_joined_lines_split(shown);
        let text_lines = lines(joined_lines(shown));
        lemma_signs_tell_the_side(text_lines, shown, DiffSide::Removed);
        lemma_signs_tell_the_side(text_lines, shown, DiffSide::Added);
    }
}

/// The command of one document.
pub open spec fn command_of(arguments: Option<Seq<JsonFieldView>>) -> Option<Seq<char>> {
    match arguments {
        Some(fields) => field_text(fields, "command"@),
        None => None,
    }
}

/// The shell command of a tool call: that of its detail, else that of its text.
pub open spec fn shell_command(
    detail: Option<Seq<JsonFieldView>>,
    text: Option<Seq<JsonFieldView>>,
) -> Option<Seq<char>> {
    if command_of(detail) is Some {
        command_of(detail)
    } else {
        command_of(text)
    }
}

/// Reads the command from a document that has been read.
pub fn document_command(arguments: &Option<Vec<JsonField>>) -> (command: Option<String>)
    ensures
        optional_text(command) == command_of(document_view(*arguments)),
{
    match arguments {
        Some(fields) => find_text(fields, "command"),
        None => None,
    }
}

pub fn structured_tool_command(detail: &str, text: &str) -> (command: Option<String>)
    ensures
        optional_text(command) == shell_command(json_document(detail@), json_document(text@)),
{
    match document_command(&parse_json(detail)) {
        Some(command) => Some(command),
        None => document_command(&parse_json(text)),
    }
}

/// A text and what belongs to it, on lines of their own.
pub open spec fn copy_text(text: Seq<char>, detail: Seq<char>) -> Seq<char> {
    if detail.len() == 0 {
        text
    } else {
        text + "\n"@ + detail
    }
}

/// The text that a copied block puts on the clipboard.
pub fn conversation_copy_text(text: &str, detail: &str) -> (copied: String)
    ensures
        copied@ == copy_text(text@, detail@),
{
    if detail.is_empty() {
        text.to_owned()
    } else {
        join3(text, "\n", detail)
    }
}

/// What the details of a tool call put on the clipboard: what the expanded view
/// shows of them.
pub open spec fn detail_copy(
    kind: ToolKind,
    detail: Option<Seq<JsonFieldView>>,
    text: Option<Seq<JsonFieldView>>,
    shown: Seq<char>,
) -> Seq<char> {
    match kind {
        ToolKind::Shell => copy_text("$ "@ + text_or_nothing(shell_command(detail, text)), shown),
        ToolKind::Edit => joined_lines(edit_lines(first_document(detail, text))),
        _ => shown,
    }
}

/// What the details of a tool row put on the clipboard.
pub open spec fn copied_details(title: Seq<char>, detail: Seq<char>, text: Seq<char>) -> Seq<char> {
    detail_copy(
        kind_of_tool(tool_name(title)),
        json_document(detail),
        json_document(text),
        text,
    )
}

pub fn tool_detail_copy_text(title: &str, detail: &str, text: &str) -> (copied: String)
    ensures
        copied@ == copied_details(title@, detail@, text@),
{
    let name = tool_name_from_title(title);
    match tool_kind(name.as_str()) {
        ToolKind::Shell => {
            let command = or_nothing(structured_tool_command(detail, text));
            conversation_copy_text(join2("$ ", command.as_str()).as_str(), text)
        },
        ToolKind::Edit => edit_diff_text(detail, text),
        _ => text.to_owned(),
    }
}

/// Whether an object has exactly one field of that name, with that text.
pub open spec fn has_field_text(fields: Seq<JsonFieldView>, name: Seq<char>, text: Seq<char>) -> bool {
    exists|i: int|
        0 <= i < fields.len() && (#[trigger] fields[i]).name == name && fields[i].text == Some(text)
            && forall|j: int| 0 <= j < fields.len() && (#[trigger] fields[j]).name == name ==> j == i
}

/// Whether an object has no field of that name.
pub open spec fn lacks_field(fields: Seq<JsonFieldView>, name: Seq<char>) -> bool {
    forall|i: int| 0 <= i < fields.len() ==> (#[trigger] fields[i]).name != name
}

/// Whether an element has exactly one member of that name, with that text.
pub open spec fn has_member_text(
    members: Seq<JsonTextView>,
    name: Seq<char>,
    text: Seq<char>,
) -> bool {
    exists|i: int|
        0 <= i < members.len() && (#[trigger] members[i]).name == name && members[i].text == Some(
            text,
        ) && forall|j: int|
            0 <= j < members.len() && (#[trigger] members[j]).name == name ==> j == i
}

/// Whether an element has no text under that name.
pub open spec fn lacks_member_text(members: Seq<JsonTextView>, name: Seq<char>) -> bool {
    forall|i: int|
        0 <= i < members.len() && (#[trigger] members[i]).name == name ==> members[i].text is None
}

proof fn lemma_field_at(fields: Seq<JsonFieldView>, index: int)
    requires
        0 <= index < fields.len(),
        forall|j: int|
            0 <= j < fields.len() && (#[trigger] fields[j]).name == fields[index].name ==> j
                == index,
    ensures
        field_named(fields, fields[index].name) == Some(fields[index]),
    decreases fields.len(),
{
    if index > 0 {
        let rest = fields.skip(1);
        assert(fields[0].name != fields[index].name);
        assert forall|j: int|
            0 <= j < rest.len() && (#[trigger] rest[j]).name == rest[index - 1].name implies j
            == index - 1 by {
            assert(rest[j] == fields[j + 1]);
        }
        lemma_field_at(rest, index - 1);
    }
}

proof fn lemma_field_absent(fields: Seq<JsonFieldView>, name: Seq<char>)
    requires
        lacks_field(fields, name),
    ensures
        field_named(fields, name) is None,
    decreases fields.len(),
{
    if fields.len() > 0 {
        let rest = fields.skip(1);
        assert forall|i: int| 0 <= i < rest.len() implies (#[trigger] rest[i]).name != name by {
            assert(rest[i] == fields[i + 1]);
        }
        lemma_field_absent(rest, name);
    }
}

/// A field is found by its name alone, wherever it stands, with the text and the
/// number that it has; a field that is not there has neither.
pub proof fn law_fields_are_found_by_name(fields: Seq<JsonFieldView>, name: Seq<char>)
    ensures
        forall|text: Seq<char>| #[trigger]
            has_field_text(fields, name, text) ==> field_text(fields, name) == Some(text),
        forall|i: int|
            0 <= i < fields.len() && (#[trigger] fields[i]).name == name && (forall|j: int|
                0 <= j < fields.len() && (#[trigger] fields[j]).name == name ==> j == i)
                ==> field_text(fields, name) == fields[i].text && field_integer(fields, name)
                == fields[i].integer && field_named(fields, name) == Some(fields[i]),
        lacks_field(fields, name) ==> field_text(fields, name) is None && field_integer(
            fields,
            name,
        ) is None && field_named(fields, name) is None,
{
    assert forall|text: Seq<char>| #[trigger] has_field_text(
        fields,
        name,
        text,
    ) implies field_text(fields, name) == Some(text) by {
        let i = choose|i: int|
            0 <= i < fields.len() && (#[trigger] fields[i]).name == name && fields[i].text == Some(
                text,
            ) && forall|j: int|
                0 <= j < fields.len() && (#[trigger] fields[j]).name == name ==> j == i;
        lemma_field_at(fields, i);
    }
    assert forall|i: int|
        0 <= i < fields.len() && (#[trigger] fields[i]).name == name && (forall|j: int|
            0 <= j < fields.len() && (#[trigger] fields[j]).name == name ==> j
                == i) implies field_text(fields, name) == fields[i].text && field_integer(
        fields,
        name,
    ) == fields[i].integer && field_named(fields, name) == Some(fields[i]) by {
        lemma_field_at(fields, i);
    }
    if lacks_field(fields, name) {
        lemma_field_absent(fields, name);
    }
}

proof fn lemma_member_at(members: Seq<JsonTextView>, index: int)
    requires
        0 <= index < members.len(),
        forall|j: int|
            0 <= j < members.len() && (#[trigger] members[j]).name == members[index].name ==> j
                == index,
    ensures
        member_text(members, members[index].name) == members[index].text,
    decreases members.len(),
{
    if index > 0 {
        let rest = members.skip(1);
        assert(members[0].name != members[index].name);
        assert forall|j: int|
            0 <= j < rest.len() && (#[trigger] rest[j]).name == rest[index - 1].name implies j
            == index - 1 by {
            assert(rest[j] == members[j + 1]);
        }
        lemma_member_at(rest, index - 1);
    }
}

proof fn lemma_member_absent(members: Seq<JsonTextView>, name: Seq<char>)
    requires
        lacks_member_text(members, name),
    ensures
        member_text(members, name) is None,
    decreases members.len(),
{
    if members.len() > 0 && members[0].name != name {
        let rest = members.skip(1);
        assert forall|i: int|
            0 <= i < rest.len() && (#[trigger] rest[i]).name == name implies rest[i].text is None by {
            assert(rest[i] == members[i + 1]);
        }
        lemma_member_absent(rest, name);
    }
}

/// A member of an element is found by its name alone, wherever it stands.
pub proof fn law_members_are_found_by_name(members: Seq<JsonTextView>, name: Seq<char>)
    ensures
        forall|text: Seq<char>| #[trigger]
            has_member_text(members, name, text) ==> member_text(members, name) == Some(text),
        lacks_member_text(members, name) ==> member_text(members, name) is None,
{
    assert forall|text: Seq<char>| #[trigger] has_member_text(
        members,
        name,
        text,
    ) implies member_text(members, name) == Some(text) by {
        let i = choose|i: int|
            0 <= i < members.len() && (#[trigger] members[i]).name == name && members[i].text
                == Some(text) && forall|j: int|
                0 <= j < members.len() && (#[trigger] members[j]).name == name ==> j == i;
        lemma_member_at(members, i);
    }
    if lacks_member_text(members, name) {
        lemma_member_absent(members, name);
    }
}

/// Arguments with an old and a new text, empty or not, are exactly one replacement,
/// from the one to the other. Without both texts they are none.
pub proof fn law_a_pair_of_texts_is_one_replacement(
    fields: Seq<JsonFieldView>,
    old_text: Seq<char>,
    new_text: Seq<char>,
)
    requires
        lacks_field(fields, "edits"@),
    ensures
        has_field_text(fields, "oldText"@, old_text) && has_field_text(
            fields,
            "newText"@,
            new_text,
        ) ==> replacements_of(fields) == seq![ReplacementView { old: old_text, new: new_text }],
        lacks_field(fields, "oldText"@) || lacks_field(fields, "newText"@) ==> replacements_of(
            fields,
        ).len() == 0,
{
    law_fields_are_found_by_name(fields, "edits"@);
    law_fields_are_found_by_name(fields, "oldText"@);
    law_fields_are_found_by_name(fields, "newText"@);
    assert(Seq::<ReplacementView>::empty().push(ReplacementView { old: old_text, new: new_text })
        =~= seq![ReplacementView { old: old_text, new: new_text }]);
}

/// One more listed edit is one more replacement, behind the others, where it has both
/// texts, empty or not; where it lacks one, the others stay as they are.
pub proof fn law_each_listed_edit_is_one_replacement(
    elements: Seq<Seq<JsonTextView>>,
    element: Seq<JsonTextView>,
    old_text: Seq<char>,
    new_text: Seq<char>,
)
    ensures
        listed_replacements(Seq::empty()).len() == 0,
        has_member_text(element, "oldText"@, old_text) && has_member_text(
            element,
            "newText"@,
            new_text,
        ) ==> listed_replacements(elements.push(element)) == listed_replacements(elements).push(
            ReplacementView { old: old_text, new: new_text },
        ),
        lacks_member_text(element, "oldText"@) || lacks_member_text(element, "newText"@)
            ==> listed_replacements(elements.push(element)) == listed_replacements(elements),
{
    law_members_are_found_by_name(element, "oldText"@);
    law_members_are_found_by_name(element, "newText"@);
    assert(elements.push(element).drop_last() =~= elements);
}

/// Where every listed edit has both texts, there are as many replacements as edits,
/// and each is from the old to the new text of its own edit.
pub proof fn law_complete_edits_are_replaced_one_by_one(
    elements: Seq<Seq<JsonTextView>>,
    replaced: Seq<ReplacementView>,
)
    requires
        elements.len() == replaced.len(),
        forall|k: int|
            0 <= k < elements.len() ==> has_member_text(
                #[trigger] elements[k],
                "oldText"@,
                replaced[k].old,
            ) && has_member_text(elements[k], "newText"@, replaced[k].new),
    ensures
        listed_replacements(elements) == replaced,
    decreases elements.len(),
{
    if elements.len() > 0 {
        let fewer = elements.drop_last();
        let earlier = replaced.drop_last();
        assert forall|k: int| 0 <= k < fewer.len() implies has_member_text(
            #[trigger] fewer[k],
            "oldText"@,
            earlier[k].old,
        ) && has_member_text(fewer[k], "newText"@, earlier[k].new) by {
            assert(fewer[k] == elements[k]);
        }
        law_complete_edits_are_replaced_one_by_one(fewer, earlier);
        let last = elements[elements.len() - 1];
        assert(has_member_text(last, "oldText"@, replaced.last().old));
        law_each_listed_edit_is_one_replacement(
            fewer,
            last,
            replaced.last().old,
            replaced.last().new,
        );
        assert(fewer.push(last) =~= elements);
        assert(earlier.push(replaced.last()) =~= replaced);
    } else {
        assert(listed_replacements(elements) =~= replaced);
    }
}

/// Listed edits come first, and an edit of the arguments themselves behind them.
pub proof fn law_listed_edits_come_first(
    fields: Seq<JsonFieldView>,
    edits: int,
    old_text: Seq<char>,
    new_text: Seq<char>,
)
    requires
        0 <= edits < fields.len(),
        fields[edits].name == "edits"@,
        forall|j: int|
            0 <= j < fields.len() && (#[trigger] fields[j]).name == "edits"@ ==> j == edits,
    ensures
        has_field_text(fields, "oldText"@, old_text) && has_field_text(
            fields,
            "newText"@,
            new_text,
        ) ==> replacements_of(fields) == listed_replacements(fields[edits].elements).push(
            ReplacementView { old: old_text, new: new_text },
        ),
        lacks_field(fields, "oldText"@) || lacks_field(fields, "newText"@) ==> replacements_of(
            fields,
        ) == listed_replacements(fields[edits].elements),
{
    law_fields_are_found_by_name(fields, "edits"@);
    law_fields_are_found_by_name(fields, "oldText"@);
    law_fields_are_found_by_name(fields, "newText"@);
    assert(field_named(fields, "edits"@) == Some(fields[edits]));
}

/// Every replacement counts the lines of its new text as added and those of its old
/// text as removed, whatever the others count.
pub proof fn law_replacements_count_their_lines(
    replacements: Seq<ReplacementView>,
    replacement: ReplacementView,
)
    ensures
        added_lines(Seq::empty()) == 0,
        removed_lines(Seq::empty()) == 0,
        added_lines(replacements.push(replacement)) == added_lines(replacements) + lines(
            replacement.new,
        ).len(),
        removed_lines(replacements.push(replacement)) == removed_lines(replacements) + lines(
            replacement.old,
        ).len(),
{
    assert(replacements.push(replacement).drop_last() =~= replacements);
}

/// The summary of an edit names the path and counts the lines that were added and
/// those that were removed, also where a text is empty.
pub proof fn law_edit_summary_counts_both_texts(
    fields: Seq<JsonFieldView>,
    path: Seq<char>,
    old_text: Seq<char>,
    new_text: Seq<char>,
)
    requires
        lacks_field(fields, "edits"@),
        has_field_text(fields, "path"@, path),
        has_field_text(fields, "oldText"@, old_text),
        has_field_text(fields, "newText"@, new_text),
    ensures
        summary_of(ToolKind::Edit, Some(fields)) == path + " +"@ + decimal(lines(new_text).len())
            + " -"@ + decimal(lines(old_text).len()),
{
    law_a_pair_of_texts_is_one_replacement(fields, old_text, new_text);
    law_fields_are_found_by_name(fields, "path"@);
    let replacement = ReplacementView { old: old_text, new: new_text };
    law_replacements_count_their_lines(Seq::empty(), replacement);
    assert(seq![replacement] =~= Seq::<ReplacementView>::empty().push(replacement));
}

/// The view of an edit shows every line of the old text as removed and then every
/// line of the new text as added, also where one of them is empty.
pub proof fn law_edit_view_shows_both_texts(
    fields: Seq<JsonFieldView>,
    old_text: Seq<char>,
    new_text: Seq<char>,
)
    requires
        lacks_field(fields, "edits"@),
        has_field_text(fields, "oldText"@, old_text),
        has_field_text(fields, "newText"@, new_text),
    ensures
        ({
            let shown = edit_lines(Some(fields));
            &&& shown.len() == lines(old_text).len() + lines(new_text).len()
            &&& forall|i: int|
                0 <= i < lines(old_text).len() ==> #[trigger] shown[i] == (
                    DiffSide::Removed,
                    "- "@ + lines(old_text)[i],
                )
            &&& forall|i: int|
                lines(old_text).len() <= i < shown.len() ==> #[trigger] shown[i] == (
                    DiffSide::Added,
                    "+ "@ + lines(new_text)[i - lines(old_text).len()],
                )
        }),
        edit_lines(None).len() == 0,
{
    law_a_pair_of_texts_is_one_replacement(fields, old_text, new_text);
    let one = seq![ReplacementView { old: old_text, new: new_text }];
    assert(one.drop_last() =~= Seq::<ReplacementView>::empty());
    reveal_with_fuel(diff_lines, 2);
    assert(diff_lines(one) =~= marked_lines(old_text, DiffSide::Removed) + marked_lines(
        new_text,
        DiffSide::Added,
    ));
}

/// The copied text of an edit is its view, line by line.
pub proof fn law_edit_text_is_its_view_line_by_line(
    shown: Seq<(DiffSide, Seq<char>)>,
    line: (DiffSide, Seq<char>),
)
    ensures
        joined_lines(Seq::empty()).len() == 0,
        joined_lines(seq![line]) == line.1,
        shown.len() > 0 ==> joined_lines(shown.push(line)) == joined_lines(shown) + seq!['\n']
            + line.1,
{
    reveal_strlit("\n");
    assert("\n"@ =~= seq!['\n']);
    assert(shown.push(line).drop_last() =~= shown);
}

/// A shell call is summed up by its command, a read by its path and range, and a tool
/// of another kind by nothing, nor is one without arguments.
pub proof fn law_summaries_show_what_the_tool_does(
    fields: Seq<JsonFieldView>,
    kind: ToolKind,
    text: Seq<char>,
)
    ensures
        has_field_text(fields, "command"@, text) ==> summary_of(ToolKind::Shell, Some(fields))
            == text,
        lacks_field(fields, "command"@) ==> summary_of(ToolKind::Shell, Some(fields)).len() == 0,
        has_field_text(fields, "path"@, text) && lacks_field(fields, "offset"@) && lacks_field(
            fields,
            "limit"@,
        ) ==> summary_of(ToolKind::Read, Some(fields)) == text,
        summary_of(ToolKind::Other, Some(fields)).len() == 0,
        summary_of(kind, None).len() == 0,
{
    law_fields_are_found_by_name(fields, "command"@);
    law_fields_are_found_by_name(fields, "path"@);
    law_fields_are_found_by_name(fields, "offset"@);
    law_fields_are_found_by_name(fields, "limit"@);
    assert(text + Seq::<char>::empty() =~= text);
}

/// A read shows the range that it asked for, from its offset and for its limit, and
/// leaves open what it did not say.
pub proof fn law_read_summary_shows_the_range(
    fields: Seq<JsonFieldView>,
    path: Seq<char>,
    offset: int,
    limit: int,
)
    requires
        has_field_text(fields, "path"@, path),
        0 <= offset < fields.len() && fields[offset].name == "offset"@,
        0 <= limit < fields.len() && fields[limit].name == "limit"@,
        forall|j: int|
            0 <= j < fields.len() && (#[trigger] fields[j]).name == "offset"@ ==> j == offset,
        forall|j: int|
            0 <= j < fields.len() && (#[trigger] fields[j]).name == "limit"@ ==> j == limit,
    ensures
        summary_of(ToolKind::Read, Some(fields)) == path + (match (
            fields[offset].integer,
            fields[limit].integer,
        ) {
            (Some(from), Some(count)) => " ["@ + decimal(from as nat) + ","@ + decimal(count as nat)
                + "]"@,
            (Some(from), None) => " ["@ + decimal(from as nat) + ",]"@,
            (None, Some(count)) => " [,"@ + decimal(count as nat) + "]"@,
            (None, None) => Seq::empty(),
        }),
{
    law_fields_are_found_by_name(fields, "path"@);
    law_fields_are_found_by_name(fields, "offset"@);
    law_fields_are_found_by_name(fields, "limit"@);
    assert(field_named(fields, "offset"@) == Some(fields[offset]));
    assert(field_named(fields, "limit"@) == Some(fields[limit]));
}

/// Tools are told apart by their names, and labelled by what they do.
pub proof fn law_tools_are_told_by_name(name: Seq<char>)
    ensures
        kind_of_tool(name) is Shell <==> name == "bash"@ || name == "shell"@,
        kind_of_tool(name) is Edit <==> name == "edit"@,
        kind_of_tool(name) is Read <==> name == "read"@,
        tool_label(ToolKind::Shell) == "Shell"@,
        tool_label(ToolKind::Edit) == "Edit"@,
        tool_label(ToolKind::Read) == "Read"@,
        tool_label(ToolKind::Other) == "Tool"@,
{
    reveal_strlit("bash");
    reveal_strlit("shell");
    reveal_strlit("edit");
    reveal_strlit("read");
    assert("bash"@[0] == 'b' && "shell"@[0] == 's' && "edit"@[0] == 'e' && "read"@[0] == 'r');
}

proof fn lemma_before_separator(name: Seq<char>, rest: Seq<char>, separator: Seq<char>)
    requires
        separator.len() > 0,
        rest.len() == 0 || begins_with(rest, separator),
        forall|i: int| 0 <= i < name.len() ==> !separator.contains(#[trigger] name[i]),
    ensures
        before(name + rest, separator) == name,
    decreases name.len(),
{
    let whole = name + rest;
    if name.len() == 0 {
        assert(whole =~= rest);
    } else {
        assert(whole[0] == name[0]);
        if begins_with(whole, separator) {
            assert(whole.take(separator.len() as int)[0] == separator[0]);
            assert(separator.contains(separator[0]));
        }
        assert(whole.skip(1) =~= name.skip(1) + rest);
        assert forall|i: int| 0 <= i < name.skip(1).len() implies !separator.contains(
            #[trigger] name.skip(1)[i],
        ) by {
            assert(name.skip(1)[i] == name[i + 1]);
        }
        lemma_before_separator(name.skip(1), rest, separator);
        assert(seq![name[0]] + name.skip(1) =~= name);
    }
}

/// The title of a tool row holds the name of the tool, between its mark and its
/// state; any other title is itself the name.
pub proof fn law_titles_hold_the_tool_name(name: Seq<char>, state: Seq<char>, title: Seq<char>)
    requires
        forall|i: int| 0 <= i < name.len() ==> name[i] != ' ' && name[i] != '·',
    ensures
        tool_name("Tool · "@ + name) == name,
        tool_name("Tool · "@ + name + " · "@ + state) == name,
        (title.len() < 7 || title.take(7) != "Tool · "@) ==> tool_name(title) == title,
{
    reveal_strlit("Tool · ");
    reveal_strlit(" · ");
    let mark = "Tool · "@;
    let separator = " · "@;
    assert forall|i: int| 0 <= i < name.len() implies !separator.contains(#[trigger] name[i]) by {
        if separator.contains(name[i]) {
            let at = separator.index_of(name[i]);
            assert(separator[at] == ' ' || separator[at] == '·');
        }
    }
    let short = mark + name;
    assert(short.take(7) =~= mark);
    assert(short.skip(7) =~= name + Seq::<char>::empty());
    lemma_before_separator(name, Seq::empty(), separator);
    let long = mark + name + separator + state;
    assert(long.take(7) =~= mark);
    let rest = separator + state;
    assert(rest.take(3) =~= separator);
    assert(long.skip(7) =~= name + rest);
    lemma_before_separator(name, rest, separator);
}

/// The arguments of a tool are those of its detail, and those of its text only where
/// the detail is no object.
pub proof fn law_detail_comes_before_text(
    detail: Seq<JsonFieldView>,
    text: Option<Seq<JsonFieldView>>,
)
    ensures
        first_document(Some(detail), text) == Some(detail),
        first_document(None, text) == text,
{
}

/// The command of a shell call is that of its detail, and that of its text where the
/// detail has none.
pub proof fn law_commands_come_from_the_detail_first(
    detail: Seq<JsonFieldView>,
    text: Seq<JsonFieldView>,
    command: Seq<char>,
)
    ensures
        has_field_text(detail, "command"@, command) ==> shell_command(Some(detail), Some(text))
            == Some(command),
        lacks_field(detail, "command"@) && has_field_text(text, "command"@, command)
            ==> shell_command(Some(detail), Some(text)) == Some(command),
        has_field_text(text, "command"@, command) ==> shell_command(None, Some(text)) == Some(
            command,
        ),
        lacks_field(detail, "command"@) && lacks_field(text, "command"@) ==> shell_command(
            Some(detail),
            Some(text),
        ) is None,
        shell_command(None, None) is None,
{
    law_fields_are_found_by_name(detail, "command"@);
    law_fields_are_found_by_name(text, "command"@);
}

/// A copied text is whole: it begins with the text and ends, on a line of its own,
/// with what belongs to it, where there is anything.
pub proof fn law_copied_text_is_whole(text: Seq<char>, detail: Seq<char>)
    ensures
        detail.len() == 0 ==> copy_text(text, detail) == text,
        detail.len() > 0 ==> copy_text(text, detail) == text + seq!['\n'] + detail,
        detail.len() > 0 ==> copy_text(text, detail).len() == text.len() + 1 + detail.len(),
{
    reveal_strlit("\n");
    assert("\n"@ =~= seq!['\n']);
}

/// Copying a shell call copies its prompt and its output, copying an edit its diff,
/// and copying anything else what is shown of it.
pub proof fn law_copied_details_are_of_the_kind(
    fields: Seq<JsonFieldView>,
    text: Option<Seq<JsonFieldView>>,
    command: Seq<char>,
    output: Seq<char>,
)
    ensures
        has_field_text(fields, "command"@, command) && output.len() > 0 ==> detail_copy(
            ToolKind::Shell,
            Some(fields),
            text,
            output,
        ) == "$ "@ + command + seq!['\n'] + output,
        has_field_text(fields, "command"@, command) ==> detail_copy(
            ToolKind::Shell,
            Some(fields),
            text,
            Seq::empty(),
        ) == "$ "@ + command,
        detail_copy(ToolKind::Edit, Some(fields), text, output) == joined_lines(
            diff_lines(replacements_of(fields)),
        ),
        detail_copy(ToolKind::Read, Some(fields), text, output) == output,
        detail_copy(ToolKind::Other, Some(fields), text, output) == output,
{
    law_fields_are_found_by_name(fields, "command"@);
    law_copied_text_is_whole("$ "@ + command, output);
}

} // verus!
