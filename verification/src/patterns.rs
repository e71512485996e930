//! The registry of named patterns.
//!
//! A registry is made once from a list of named pattern texts. Each pattern
//! is compiled when it is first asked for, and never again: whoever asks
//! later is handed the same compiled pattern. The text of a pattern is not
//! looked at before that, so a text that is no pattern shows only then.

use vstd::prelude::*;
use crate::matcher::pattern_compiles;
use crate::matcher::regex_new;
use crate::matcher::compiled_from;
use crate::schema::attributes::ArgValue;
use crate::schema::error::SchemaError;
use crate::schema::error::SchemaErrorKind;
use crate::schema::metadata::texts;
use crate::schema::value::Value;
use crate::text::str_eq;

verus! {

/// One item of the module that declares the patterns.
pub enum Item {
    /// A constant: its name and the expression it is set to.
    Const { ident: String, value: ArgValue },
    /// Anything else; it is passed over.
    Other,
}

/// The identifier of a registered pattern: its place in the order of
/// declaration.
#[derive(Debug, Clone, Copy, PartialEq, Eq, Structural)]
pub struct PatternId {
    pub index: usize,
}

/// A registered pattern: its name, its text and, once it has been asked
/// for, what it compiled to.
pub struct PatternEntry {
    name: String,
    source: String,
    cell: once_cell::sync::OnceCell<regex::Regex>,
}

/// The registry.
pub struct PatternRegistry {
    entries: Vec<PatternEntry>,
}

/// A fault of the declaring module, with the name of the constant at fault.
pub struct ItemFault {
    pub name: Seq<char>,
    pub kind: SchemaErrorKind,
}

/// The names and texts of the patterns declared by `items`, behind those
/// already gathered; or the first fault: a constant that is not set to a
/// string literal, or whose name was used before.
pub open spec fn collect_from(
    items: Seq<Item>,
    names: Seq<Seq<char>>,
    sources: Seq<Seq<char>>,
) -> Result<(Seq<Seq<char>>, Seq<Seq<char>>), ItemFault>
    decreases items.len(),
{
    if items.len() == 0 {
        Ok((names, sources))
    } else {
        match items[0] {
            Item::Other => collect_from(items.drop_first(), names, sources),
            Item::Const { ident, value } => match value {
                ArgValue::Literal(Value::Text(source)) => if names.contains(ident@) {
                    Err(ItemFault { name: ident@, kind: SchemaErrorKind::DuplicateName })
                } else {
                    collect_from(items.drop_first(), names.push(ident@), sources.push(source@))
                },
                _ => Err(ItemFault { name: ident@, kind: SchemaErrorKind::NotStringLiteral }),
            },
        }
    }
}

/// The names of the constants among `items`, in order.
pub open spec fn const_names(items: Seq<Item>) -> Seq<Seq<char>>
    decreases items.len(),
{
    if items.len() == 0 {
        Seq::empty()
    } else {
        match items[0] {
            Item::Other => const_names(items.drop_first()),
            Item::Const { ident, .. } => seq![ident@] + const_names(items.drop_first()),
        }
    }
}

/// The names that come out of a module are the names of its constants, in
/// the order of declaration, and none of them comes twice.
pub proof fn lemma_names_round_trip(
    items: Seq<Item>,
    names: Seq<Seq<char>>,
    sources: Seq<Seq<char>>,
)
    requires
        names.no_duplicates(),
        names.len() == sources.len(),
    ensures
        collect_from(items, names, sources) matches Ok(out) ==> {
            &&& out.0 == names + const_names(items)
            &&& out.0.no_duplicates()
            &&& out.0.len() == out.1.len()
        },
    decreases items.len(),
{
    if items.len() == 0 {
        assert(names + const_names(items) =~= names);
    } else {
        match items[0] {
            Item::Other => {
                lemma_names_round_trip(items.drop_first(), names, sources);
            },
            Item::Const { ident, value } => {
                if value matches ArgValue::Literal(Value::Text(_)) && !names.contains(ident@) {
                    let source = value->Literal_0->Text_0;
                    let longer = names.push(ident@);
                    assert(longer.no_duplicates()) by {
                        assert forall|i: int, j: int|
                            0 <= i < longer.len() && 0 <= j < longer.len() && i != j implies longer[i]
                            != longer[j] by {
                            if i < names.len() && j < names.len() {
                            } else if i < names.len() {
                                assert(names.contains(names[i]));
                            } else {
                                assert(names.contains(names[j]));
                            }
                        }
                    }
                    lemma_names_round_trip(items.drop_first(), longer, sources.push(source@));
                    assert(longer + const_names(items.drop_first()) =~= names + const_names(items));
                }
            },
        }
    }
}

/// The names of a list of entries.
pub closed spec fn entry_names(entries: Seq<PatternEntry>) -> Seq<Seq<char>> {
    Seq::new(entries.len(), |i: int| entries[i].name@)
}

/// The texts of a list of entries.
pub closed spec fn entry_sources(entries: Seq<PatternEntry>) -> Seq<Seq<char>> {
    Seq::new(entries.len(), |i: int| entries[i].source@)
}

/// `OnceCell::new`: a cell that holds nothing yet.
#[verifier::external_body]
fn empty_cell() -> (cell: once_cell::sync::OnceCell<regex::Regex>) {
    once_cell::sync::OnceCell::new()
}

/// `OnceCell::get_or_try_init`: hands out what the cell holds; if it holds
/// nothing, runs the function given, and if that succeeds, stores what it
/// returned and hands it out. Of several callers at once, one runs the
/// function and the others wait for it. If the function fails, the cell
/// stays empty and the failure is handed back.
///
/// The cell of an entry is written here and nowhere else, with the entry's
/// own text compiled; so what is handed out was compiled from that text.
#[verifier::external_body]
fn entry_regex(entry: &PatternEntry) -> (r: Result<&regex::Regex, regex::Error>)
    ensures
        r is Ok == pattern_compiles(entry.source@),
        r matches Ok(re) ==> compiled_from(*re, entry.source@),
{
    entry.cell.get_or_try_init(|| entry.compile())
}

impl PatternEntry {
    fn new(name: String, source: String) -> (entry: PatternEntry)
        ensures
            entry.name == name,
            entry.source == source,
    {
        PatternEntry { name, source, cell: empty_cell() }
    }

    /// Compiles the entry's text.
    fn compile(&self) -> (r: Result<regex::Regex, regex::Error>)
        ensures
            r is Ok == pattern_compiles(self.source@),
            r matches Ok(re) ==> compiled_from(re, self.source@),
    {
        regex_new(self.source.as_str())
    }
}

impl PatternRegistry {
    #[verifier::type_invariant]
    spec fn distinct_names(self) -> bool {
        entry_names(self.entries@).no_duplicates()
    }

    /// The names of the patterns, in the order of declaration.
    pub closed spec fn names_view(&self) -> Seq<Seq<char>> {
        entry_names(self.entries@)
    }

    /// The texts of the patterns, in the order of declaration.
    pub closed spec fn sources_view(&self) -> Seq<Seq<char>> {
        entry_sources(self.entries@)
    }

    /// There are as many texts as names.
    pub proof fn lemma_lengths(&self)
        ensures
            self.names_view().len() == self.sources_view().len(),
    {
    }

    /// Whether `id` identifies a pattern of this registry.
    pub open spec fn has(&self, id: PatternId) -> bool {
        id.index < self.names_view().len()
    }

    /// The number of patterns.
    pub fn len(&self) -> (n: usize)
        ensures
            n == self.names_view().len(),
            n == self.sources_view().len(),
    {
        self.entries.len()
    }

    /// The names of all patterns, in the order of declaration. No name
    /// comes twice.
    pub fn names(&self) -> (r: Vec<String>)
        ensures
            texts(r@) == self.names_view(),
            texts(r@).no_duplicates(),
    {
        proof {
            use_type_invariant(self);
        }
        let mut out: Vec<String> = Vec::new();
        let mut i: usize = 0;
        while i < self.entries.len()
            invariant
                i <= self.entries.len(),
                out@.len() == i,
                forall|j: int| 0 <= j < i ==> (#[trigger] out@[j])@ == self.entries@[j].name@,
            decreases self.entries.len() - i,
        {
            out.push(self.entries[i].name.clone());
            i += 1;
        }
        assert(texts(out@) =~= self.names_view());
        out
    }

    /// The identifier of the pattern of this name, if there is one.
    pub fn from_name(&self, s: &str) -> (r: Option<PatternId>)
        ensures
            match r {
                Some(id) => self.has(id) && self.names_view()[id.index as int] == s@,
                None => !self.names_view().contains(s@),
            },
            self.names_view().no_duplicates(),
            self.names_view().len() == self.sources_view().len(),
    {
        proof {
            use_type_invariant(self);
        }
        let mut i: usize = 0;
        while i < self.entries.len()
            invariant
                i <= self.entries.len(),
                entry_names(self.entries@).no_duplicates(),
                forall|j: int| 0 <= j < i ==> self.entries@[j].name@ != s@,
            decreases self.entries.len() - i,
        {
            if str_eq(self.entries[i].name.as_str(), s) {
                return Some(PatternId { index: i });
            }
            i += 1;
        }
        None
    }

    /// The text of a pattern.
    pub fn source(&self, id: PatternId) -> (r: &str)
        requires
            self.has(id),
        ensures
            r@ == self.sources_view()[id.index as int],
    {
        self.entries[id.index].source.as_str()
    }

    /// The compiled pattern, compiled now if it was never asked for before.
    /// Every call for the same identifier hands out the pattern compiled
    /// from the same text.
    ///
    /// The text has to be a pattern that compiles; `try_regex` is for the
    /// caller who does not know.
    pub fn regex(&self, id: PatternId) -> (r: &regex::Regex)
        requires
            self.has(id),
            pattern_compiles(self.sources_view()[id.index as int]),
        ensures
            compiled_from(*r, self.sources_view()[id.index as int]),
    {
        match entry_regex(&self.entries[id.index]) {
            Ok(re) => re,
            Err(_) => vstd::pervasive::unreached(),
        }
    }

    /// The compiled pattern, if `id` identifies a pattern and its text
    /// compiles.
    pub fn try_regex(&self, id: PatternId) -> (r: Option<&regex::Regex>)
        ensures
            match r {
                Some(re) => {
                    &&& self.has(id)
                    &&& pattern_compiles(self.sources_view()[id.index as int])
                    &&& compiled_from(*re, self.sources_view()[id.index as int])
                },
                None => !self.has(id) || !pattern_compiles(self.sources_view()[id.index as int]),
            },
    {
        if id.index >= self.entries.len() {
            return None;
        }
        match entry_regex(&self.entries[id.index]) {
            Ok(_) => Some(self.regex(id)),
            Err(_) => None,
        }
    }
}

/// Builds the registry of the patterns that a module declares: one for
/// each constant, which has to be set to a string literal. Other items are
/// passed over. A module without constants gives an empty registry.
///
/// Fails on the first constant that is set to something else, or whose name
/// was used before; the error names the constant.
#[verifier::loop_isolation(false)]
pub fn regexes_static_gen(items: &Vec<Item>) -> (r: Result<PatternRegistry, SchemaError>)
    ensures
        match r {
            Ok(registry) => {
                &&& collect_from(items@, Seq::empty(), Seq::empty()) == Ok::<
                    (Seq<Seq<char>>, Seq<Seq<char>>),
                    ItemFault,
                >((registry.names_view(), registry.sources_view()))
                &&& registry.names_view() == const_names(items@)
                &&& registry.names_view().no_duplicates()
            },
            Err(e) => collect_from(items@, Seq::empty(), Seq::empty()) matches Err(fault) && e.is(
                fault.kind,
                fault.name,
                None,
            ),
        },
{
    let mut entries: Vec<PatternEntry> = Vec::new();
    let mut i: usize = 0;
    assert(items@.skip(0) =~= items@);
    assert(entry_names(entries@) =~= Seq::empty());
    assert(entry_sources(entries@) =~= Seq::empty());
    while i < items.len()
        invariant
            i <= items.len(),
            entry_names(entries@).no_duplicates(),
            collect_from(items@, Seq::empty(), Seq::empty()) == collect_from(
                items@.skip(i as int),
                entry_names(entries@),
                entry_sources(entries@),
            ),
        decreases items.len() - i,
    {
        assert(items@.skip(i as int)[0] == items@[i as int]);
        assert(items@.skip(i as int).drop_first() =~= items@.skip(i + 1));
        match &items[i] {
            Item::Other => {},
            Item::Const { ident, value } => {
                let source = match value {
                    ArgValue::Literal(Value::Text(source)) => source,
                    _ => {
                        return Err(
                            SchemaError::new(
                                SchemaErrorKind::NotStringLiteral,
                                ident.as_str(),
                                None,
                            ),
                        );
                    },
                };
                let mut j: usize = 0;
                while j < entries.len()
                    invariant
                        j <= entries.len(),
                        forall|k: int| 0 <= k < j ==> entries@[k].name@ != ident@,
                    decreases entries.len() - j,
                {
                    if str_eq(entries[j].name.as_str(), ident.as_str()) {
                        assert(entry_names(entries@)[j as int] == ident@);
                        return Err(
                            SchemaError::new(
                                SchemaErrorKind::DuplicateName,
                                ident.as_str(),
                                None,
                            ),
                        );
                    }
                    j += 1;
                }
                let ghost names = entry_names(entries@);
                let ghost sources = entry_sources(entries@);
                assert(!names.contains(ident@)) by {
                    if names.contains(ident@) {
                        let k = choose|k: int| 0 <= k < names.len() && names[k] == ident@;
                        assert(entries@[k].name@ == ident@);
                    }
                }
                entries.push(PatternEntry::new(ident.clone(), source.clone()));
                assert(entry_names(entries@) =~= names.push(ident@));
                assert(entry_sources(entries@) =~= sources.push(source@));
                assert(entry_names(entries@).no_duplicates()) by {
                    let longer = entry_names(entries@);
                    assert forall|a: int, b: int|
                        0 <= a < longer.len() && 0 <= b < longer.len() && a != b implies longer[a]
                        != longer[b] by {
                        if a < names.len() && b < names.len() {
                        } else if a < names.len() {
                            assert(names.contains(names[a]));
                        } else {
                            assert(names.contains(names[b]));
                        }
                    }
                }
            },
        }
        i += 1;
    }
    proof {
        lemma_names_round_trip(items@, Seq::empty(), Seq::empty());
        assert(Seq::<Seq<char>>::empty() + const_names(items@) =~= const_names(items@));
    }
    Ok(PatternRegistry { entries })
}

} // verus!
