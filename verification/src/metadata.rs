//! Best-effort schema extraction from an EDMX/CSDL metadata document.
//!
//! The document is read line by line. A line is a maximal run of characters
//! between line feeds; the entity scan looks at each line with the white
//! space at both ends taken off. Nothing here validates the document: the
//! scan recognises a handful of tags by their text and ignores the rest.

use vstd::prelude::*;
use crate::error::ODataError;
use crate::text::{
    buffers, chars_of, contains, extend, find, includes, index_of, last_segment, matches_at, occurs_at,
    remove_all, same_text, slice, split, split_on, starts_with, string_of, tail_after, texts, trim, trimmed,
    with_entry, without,
};

verus! {

/// The attribute that names an element, up to its opening quote.
pub open spec fn name_attr() -> Seq<char> {
    "Name=\""@
}

/// The attribute that gives an element's type, up to its opening quote.
pub open spec fn type_attr() -> Seq<char> {
    "Type=\""@
}

/// The value that follows the first occurrence of `key` in `line`, up to the
/// next double quote; `None` when `key` does not occur or no quote follows.
pub open spec fn quoted_after(line: Seq<char>, key: Seq<char>) -> Option<Seq<char>> {
    match index_of(line, key) {
        None => None,
        Some(i) => {
            let rest = line.skip(i + key.len());
            match index_of(rest, "\""@) {
                None => None,
                Some(e) => Some(rest.take(e)),
            }
        },
    }
}

/// The line opens an entity type that answers to `entity`: its text holds
/// the exact `Name` attribute, or its first `Name` value and `entity` are
/// prefixes of one another.
pub open spec fn names_entity(line: Seq<char>, entity: Seq<char>) -> bool {
    &&& contains(line, "<EntityType "@)
    &&& {
        ||| contains(line, name_attr() + entity + "\""@)
        ||| match quoted_after(line, name_attr()) {
            Some(name) => starts_with(name, entity) || starts_with(entity, name),
            None => false,
        }
    }
}

/// How a property is listed: its name, then its type without any `Edm.`.
pub open spec fn render_property(name: Seq<char>, ty: Option<Seq<char>>) -> Seq<char> {
    match ty {
        Some(t) => name + ": "@ + remove_all(t, "Edm."@),
        None => name,
    }
}

/// The entity that a navigation type points at: the last dot-separated
/// segment of the type, outside any `Collection(..)` wrapper.
pub open spec fn navigation_target(ty: Seq<char>) -> Seq<char> {
    last_segment(remove_all(remove_all(ty, "Collection("@), ")"@), '.')
}

/// How a navigation property is listed: its name, then its target, in
/// square brackets when the type is a collection.
pub open spec fn render_navigation(name: Seq<char>, ty: Option<Seq<char>>) -> Seq<char> {
    match ty {
        Some(t) => if contains(t, "Collection"@) {
            name + " -> ["@ + navigation_target(t) + "]"@
        } else {
            name + " -> "@ + navigation_target(t)
        },
        None => name,
    }
}

/// The entry that a line adds to the property list, if any.
pub open spec fn property_entry(line: Seq<char>) -> Option<Seq<char>> {
    if starts_with(line, "<Property "@) {
        match quoted_after(line, name_attr()) {
            Some(name) => Some(render_property(name, quoted_after(line, type_attr()))),
            None => None,
        }
    } else {
        None
    }
}

/// The entry that a line adds to the navigation list, if any.
pub open spec fn navigation_entry(line: Seq<char>) -> Option<Seq<char>> {
    if starts_with(line, "<NavigationProperty "@) {
        match quoted_after(line, name_attr()) {
            Some(name) => Some(render_navigation(name, quoted_after(line, type_attr()))),
            None => None,
        }
    } else {
        None
    }
}

/// Whether the scan is inside a `<Key>` span after reading `line`.
pub open spec fn key_span_after(in_key: bool, line: Seq<char>) -> bool {
    if contains(line, "</Key>"@) {
        false
    } else if contains(line, "<Key>"@) {
        true
    } else {
        in_key
    }
}

/// The entry that a line adds to the key fields, given that it lies in a
/// `<Key>` span.
pub open spec fn key_entry(line: Seq<char>) -> Option<Seq<char>> {
    if contains(line, "<PropertyRef "@) {
        quoted_after(line, name_attr())
    } else {
        None
    }
}

/// What the entity scan knows after some lines.
pub struct ScanState {
    /// A matching entity type has been opened and not yet given up.
    pub in_entity: bool,
    /// The last `<Key>` has not been closed.
    pub in_key: bool,
    /// A matched block with content has ended: the answer is complete.
    pub finished: bool,
    pub properties: Seq<Seq<char>>,
    pub navigation: Seq<Seq<char>>,
    pub keys: Seq<Seq<char>>,
}

/// The state before the first line.
pub open spec fn initial_state() -> ScanState {
    ScanState {
        in_entity: false,
        in_key: false,
        finished: false,
        properties: Seq::empty(),
        navigation: Seq::empty(),
        keys: Seq::empty(),
    }
}

/// The state after one more line, given with its outer white space off.
///
/// Outside a matched block a line counts only if it opens one. Inside, it
/// may open or close the key span, add a key field, a property or a
/// navigation property, and close the block. A block that closes with no
/// property and no navigation property is given up, and the scan goes on to
/// the next candidate; key fields read so far stay.
pub open spec fn step(st: ScanState, line: Seq<char>, entity: Seq<char>) -> ScanState {
    if !st.in_entity && !names_entity(line, entity) {
        st
    } else {
        let in_key = key_span_after(st.in_key, line);
        let keys = if in_key {
            with_entry(st.keys, key_entry(line))
        } else {
            st.keys
        };
        let properties = with_entry(st.properties, property_entry(line));
        let navigation = with_entry(st.navigation, navigation_entry(line));
        let closes = line == "</EntityType>"@;
        let found = properties.len() > 0 || navigation.len() > 0;
        ScanState {
            in_entity: !closes || found,
            in_key,
            finished: closes && found,
            properties,
            navigation,
            keys,
        }
    }
}

/// The state after all of `lines`, or after the line that finished the scan.
pub open spec fn scan(lines: Seq<Seq<char>>, st: ScanState, entity: Seq<char>) -> ScanState
    decreases lines.len(),
{
    if lines.len() == 0 || st.finished {
        st
    } else {
        scan(lines.drop_first(), step(st, trim(lines[0]), entity), entity)
    }
}

/// The lines of a document.
pub open spec fn lines_of(document: Seq<char>) -> Seq<Seq<char>> {
    split(document, '\n')
}

/// The schema of `entity` as the document gives it: properties, navigation
/// properties and key fields, each in document order. `None` when the scan
/// collects neither a property nor a navigation property.
pub open spec fn entity_schema(document: Seq<char>, entity: Seq<char>) -> Option<
    (Seq<Seq<char>>, Seq<Seq<char>>, Seq<Seq<char>>),
> {
    let end = scan(lines_of(document), initial_state(), entity);
    if end.properties.len() == 0 && end.navigation.len() == 0 {
        None
    } else {
        Some((end.properties, end.navigation, end.keys))
    }
}

/// The message of the error for an entity that the document does not describe.
pub open spec fn not_found_message(entity: Seq<char>) -> Seq<char> {
    "Entity '"@ + entity + "' not found in metadata"@
}

/// The entity-set name that a line declares, if any.
pub open spec fn entity_set_entry(line: Seq<char>) -> Option<Seq<char>> {
    if contains(line, "EntitySet"@) && contains(line, "Name="@) {
        quoted_after(line, name_attr())
    } else {
        None
    }
}

/// The entity-set names that `lines` declare, in order.
pub open spec fn entity_sets(lines: Seq<Seq<char>>) -> Seq<Seq<char>>
    decreases lines.len(),
{
    if lines.len() == 0 {
        Seq::empty()
    } else {
        with_entry(entity_sets(lines.drop_last()), entity_set_entry(lines.last()))
    }
}

/// While no line opens a matching entity type, the scan stays outside any
/// block and its state does not change.
proof fn lemma_scan_stays_outside(lines: Seq<Seq<char>>, st: ScanState, entity: Seq<char>)
    requires
        !st.in_entity,
        forall|i: int| 0 <= i < lines.len() ==> !names_entity(trim(#[trigger] lines[i]), entity),
    ensures
        scan(lines, st, entity) == st,
    decreases lines.len(),
{
    if lines.len() > 0 && !st.finished {
        assert(!names_entity(trim(lines[0]), entity));
        let rest = lines.drop_first();
        assert forall|i: int| 0 <= i < rest.len() implies !names_entity(
            trim(#[trigger] rest[i]),
            entity,
        ) by {
            assert(rest[i] == lines[i + 1]);
        }
        lemma_scan_stays_outside(rest, st, entity);
    }
}

/// An entity that the document does not name has no schema: where no line
/// opens an entity type that answers to `entity`, the extraction fails.
pub proof fn absent_entity_has_no_schema(document: Seq<char>, entity: Seq<char>)
    requires
        forall|i: int|
            0 <= i < lines_of(document).len() ==> !names_entity(
                trim(#[trigger] lines_of(document)[i]),
                entity,
            ),
    ensures
        entity_schema(document, entity) is None,
{
    lemma_scan_stays_outside(lines_of(document), initial_state(), entity);
}

/// The value of the attribute `key` on `line`.
pub fn attribute_value(line: &Vec<char>, key: &Vec<char>) -> (r: Option<Vec<char>>)
    ensures
        match r {
            Some(v) => quoted_after(line@, key@) == Some(v@),
            None => quoted_after(line@, key@) is None,
        },
{
    match find(line, key) {
        None => None,
        Some(i) => {
            let width: usize = key.len();
            assert(i + width <= line.len()) by {
                assert(occurs_at(line@, key@, i as int));
            }
            let rest = slice(line, i + width, line.len());
            assert(rest@ =~= line@.skip(i + key@.len()));
            let quote = chars_of("\"");
            match find(&rest, &quote) {
                None => None,
                Some(e) => {
                    let value = slice(&rest, 0, e);
                    assert(value@ =~= rest@.take(e as int));
                    Some(value)
                },
            }
        },
    }
}

/// Whether `line` opens an entity type that answers to `entity`.
pub fn opens_entity(line: &Vec<char>, entity: &Vec<char>) -> (r: bool)
    ensures
        r == names_entity(line@, entity@),
{
    if !includes(line, &chars_of("<EntityType ")) {
        return false;
    }
    let name_key = chars_of("Name=\"");
    let mut exact: Vec<char> = Vec::new();
    extend(&mut exact, &name_key);
    extend(&mut exact, entity);
    extend(&mut exact, &chars_of("\""));
    assert(exact@ =~= name_attr() + entity@ + "\""@);
    if includes(line, &exact) {
        return true;
    }
    match attribute_value(line, &name_key) {
        Some(name) => matches_at(&name, entity, 0) || matches_at(entity, &name, 0),
        None => false,
    }
}

/// The property entry of `line`, if it declares a property.
pub fn read_property(line: &Vec<char>) -> (r: Option<Vec<char>>)
    ensures
        match r {
            Some(v) => property_entry(line@) == Some(v@),
            None => property_entry(line@) is None,
        },
{
    if !matches_at(line, &chars_of("<Property "), 0) {
        return None;
    }
    match attribute_value(line, &chars_of("Name=\"")) {
        None => None,
        Some(name) => {
            let mut entry = name;
            match attribute_value(line, &chars_of("Type=\"")) {
                None => {},
                Some(ty) => {
                    extend(&mut entry, &chars_of(": "));
                    extend(&mut entry, &without(&ty, &chars_of("Edm.")));
                },
            }
            Some(entry)
        },
    }
}

/// The entity that the navigation type `ty` points at.
pub fn target_of(ty: &Vec<char>) -> (r: Vec<char>)
    ensures
        r@ == navigation_target(ty@),
{
    let bare = without(&without(ty, &chars_of("Collection(")), &chars_of(")"));
    tail_after(&bare, '.')
}

/// The navigation entry of `line`, if it declares a navigation property.
pub fn read_navigation(line: &Vec<char>) -> (r: Option<Vec<char>>)
    ensures
        match r {
            Some(v) => navigation_entry(line@) == Some(v@),
            None => navigation_entry(line@) is None,
        },
{
    if !matches_at(line, &chars_of("<NavigationProperty "), 0) {
        return None;
    }
    match attribute_value(line, &chars_of("Name=\"")) {
        None => None,
        Some(name) => {
            let mut entry = name;
            match attribute_value(line, &chars_of("Type=\"")) {
                None => {},
                Some(ty) => {
                    let target = target_of(&ty);
                    if includes(&ty, &chars_of("Collection")) {
                        extend(&mut entry, &chars_of(" -> ["));
                        extend(&mut entry, &target);
                        extend(&mut entry, &chars_of("]"));
                    } else {
                        extend(&mut entry, &chars_of(" -> "));
                        extend(&mut entry, &target);
                    }
                },
            }
            Some(entry)
        },
    }
}

/// The key field of `line`, if it refers to one.
pub fn read_key(line: &Vec<char>) -> (r: Option<Vec<char>>)
    ensures
        match r {
            Some(v) => key_entry(line@) == Some(v@),
            None => key_entry(line@) is None,
        },
{
    if includes(line, &chars_of("<PropertyRef ")) {
        attribute_value(line, &chars_of("Name=\""))
    } else {
        None
    }
}

/// The running state of the entity scan.
pub struct Scanner {
    pub in_entity: bool,
    pub in_key: bool,
    pub finished: bool,
    pub properties: Vec<String>,
    pub navigation: Vec<String>,
    pub keys: Vec<String>,
}

impl View for Scanner {
    type V = ScanState;

    open spec fn view(&self) -> ScanState {
        ScanState {
            in_entity: self.in_entity,
            in_key: self.in_key,
            finished: self.finished,
            properties: texts(self.properties@),
            navigation: texts(self.navigation@),
            keys: texts(self.keys@),
        }
    }
}

/// Puts `entry`, where there is one, at the end of `list`.
pub fn record(list: &mut Vec<String>, entry: Option<Vec<char>>)
    ensures
        texts(final(list)@) == with_entry(
            texts(old(list)@),
            match entry {
                Some(e) => Some(e@),
                None => None,
            },
        ),
{
    match entry {
        Some(e) => {
            list.push(string_of(&e));
            assert(texts(list@) =~= texts(old(list)@).push(e@));
        },
        None => {},
    }
}

impl Scanner {
    /// A scanner that has read nothing.
    pub fn new() -> (s: Scanner)
        ensures
            s@ == initial_state(),
    {
        let s = Scanner {
            in_entity: false,
            in_key: false,
            finished: false,
            properties: Vec::new(),
            navigation: Vec::new(),
            keys: Vec::new(),
        };
        assert(s@.properties =~= Seq::empty());
        assert(s@.navigation =~= Seq::empty());
        assert(s@.keys =~= Seq::empty());
        s
    }

    /// Reads one line, given with its outer white space off.
    pub fn advance(&mut self, line: &Vec<char>, entity: &Vec<char>)
        ensures
            final(self)@ == step(old(self)@, line@, entity@),
    {
        if !self.in_entity && !opens_entity(line, entity) {
            return ;
        }
        if includes(line, &chars_of("</Key>")) {
            self.in_key = false;
        } else if includes(line, &chars_of("<Key>")) {
            self.in_key = true;
        }
        if self.in_key {
            record(&mut self.keys, read_key(line));
        }
        record(&mut self.properties, read_property(line));
        record(&mut self.navigation, read_navigation(line));
        let closes = same_text(line, &chars_of("</EntityType>"));
        let found = self.properties.len() > 0 || self.navigation.len() > 0;
        self.in_entity = !closes || found;
        self.finished = closes && found;
    }
}

/// Extracts the schema of `entity_name` from a metadata document:
/// properties, navigation properties and key fields, in document order.
/// Fails with `NotFound` when the document yields neither a property nor a
/// navigation property for it.
pub fn parse_entity(metadata_xml: &str, entity_name: &str) -> (r: Result<
    (Vec<String>, Vec<String>, Vec<String>),
    ODataError,
>)
    ensures
        match r {
            Ok(found) => entity_schema(metadata_xml@, entity_name@) == Some(
                (texts(found.0@), texts(found.1@), texts(found.2@)),
            ),
            Err(e) => entity_schema(metadata_xml@, entity_name@) is None && match e {
                ODataError::NotFound(m) => m@ == not_found_message(entity_name@),
                _ => false,
            },
        },
{
    let entity = chars_of(entity_name);
    let lines = split_on(&chars_of(metadata_xml), '\n');
    let ghost all = buffers(lines@);
    let mut state = Scanner::new();
    let mut i: usize = 0;
    assert(all.skip(0) =~= all);
    while i < lines.len() && !state.finished
        invariant
            i <= lines.len(),
            all == buffers(lines@),
            scan(all, initial_state(), entity@) == scan(all.skip(i as int), state@, entity@),
        decreases lines.len() - i,
    {
        let line = trimmed(&lines[i]);
        assert(all.skip(i as int).drop_first() =~= all.skip(i + 1));
        state.advance(&line, &entity);
        i += 1;
    }
    if state.properties.len() == 0 && state.navigation.len() == 0 {
        let mut message = chars_of("Entity '");
        extend(&mut message, &entity);
        extend(&mut message, &chars_of("' not found in metadata"));
        Err(ODataError::NotFound(string_of(&message)))
    } else {
        Ok((state.properties, state.navigation, state.keys))
    }
}

/// The names of the entity sets that a metadata document declares, in
/// document order. A document that declares none gives an empty list.
pub fn extract_entity_sets_from_metadata(metadata: &str) -> (r: Vec<String>)
    ensures
        texts(r@) == entity_sets(lines_of(metadata@)),
{
    let lines = split_on(&chars_of(metadata), '\n');
    let ghost all = buffers(lines@);
    let mut found: Vec<String> = Vec::new();
    let mut i: usize = 0;
    assert(texts(found@) =~= Seq::<Seq<char>>::empty());
    while i < lines.len()
        invariant
            i <= lines.len(),
            all == buffers(lines@),
            texts(found@) == entity_sets(all.subrange(0, i as int)),
        decreases lines.len() - i,
    {
        let line = &lines[i];
        assert(all.subrange(0, i + 1).drop_last() =~= all.subrange(0, i as int));
        assert(all.subrange(0, i + 1).last() == line@);
        if includes(line, &chars_of("EntitySet")) && includes(line, &chars_of("Name=")) {
            record(&mut found, attribute_value(line, &chars_of("Name=\"")));
        }
        i += 1;
    }
    assert(all.subrange(0, lines.len() as int) =~= all);
    found
}

} // verus!
