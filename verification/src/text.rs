//! Text primitives shared by the matcher, the decoder and the reconciler.

use vstd::prelude::*;

verus! {

/// `needle` stands in `hay` at position `at`.
pub open spec fn occurs_at(hay: Seq<char>, needle: Seq<char>, at: int) -> bool {
    &&& 0 <= at
    &&& at + needle.len() <= hay.len()
    &&& hay.subrange(at, at + needle.len()) == needle
}

/// `needle` is a contiguous run of characters of `hay`.
pub open spec fn is_substring(hay: Seq<char>, needle: Seq<char>) -> bool {
    exists|at: int| occurs_at(hay, needle, at)
}

/// The ASCII lower-case form of one character: `A` to `Z` move to `a` to `z`,
/// every other character stays.
pub open spec fn ascii_lower_char(c: char) -> char {
    if 'A' <= c && c <= 'Z' {
        ((c as u8) + 32u8) as char
    } else {
        c
    }
}

/// The ASCII lower-case form of a text, character by character.
pub open spec fn ascii_lower(s: Seq<char>) -> Seq<char> {
    Seq::new(s.len(), |i: int| ascii_lower_char(s[i]))
}

/// Putting a text in ASCII lower case a second time changes nothing.
pub proof fn ascii_lower_is_idempotent(s: Seq<char>)
    ensures
        ascii_lower(ascii_lower(s)) == ascii_lower(s),
{
    assert forall|c: char| ascii_lower_char(ascii_lower_char(c)) == #[trigger] ascii_lower_char(
        c,
    ) by {
        if 'A' <= c && c <= 'Z' {
            let lower = ascii_lower_char(c);
            assert(!('A' <= lower && lower <= 'Z'));
        }
    }
    assert(ascii_lower(ascii_lower(s)) =~= ascii_lower(s));
}

/// The Unicode lower-case form of a text, as `str::to_lowercase` computes it.
pub uninterp spec fn lowercase_of(s: Seq<char>) -> Seq<char>;

/// The pieces of `s` between occurrences of `sep`. A text without `sep` is
/// one piece; two neighbouring separators enclose an empty piece.
pub open spec fn split_on(s: Seq<char>, sep: char) -> Seq<Seq<char>>
    decreases s.len(),
{
    if s.len() == 0 {
        seq![Seq::<char>::empty()]
    } else {
        let rest = split_on(s.drop_first(), sep);
        if s[0] == sep {
            seq![Seq::<char>::empty()] + rest
        } else {
            rest.update(0, seq![s[0]] + rest[0])
        }
    }
}

/// The character of one decimal digit.
pub open spec fn digit_char(d: nat) -> char {
    (('0' as u8) + (d % 10) as u8) as char
}

/// The decimal numeral of `n`, without leading zeros.
pub open spec fn decimal(n: nat) -> Seq<char>
    decreases n,
{
    if n < 10 {
        seq![digit_char(n)]
    } else {
        decimal(n / 10).push(digit_char(n % 10))
    }
}

/// The views of a list of texts.
pub open spec fn texts(v: Seq<String>) -> Seq<Seq<char>> {
    Seq::new(v.len(), |i: int| v[i]@)
}

/// Calls `str::contains` with a text pattern: whether the pattern matches a
/// sub-slice of the text, which for two texts means that the characters of
/// `needle` stand in `hay` one after the other.
#[verifier::external_body]
pub(crate) fn str_contains(hay: &str, needle: &str) -> (found: bool)
    ensures
        found == is_substring(hay@, needle@),
{
    hay.contains(needle)
}

/// Calls `str::to_lowercase`. The Unicode case tables are not restated: the
/// result is the named lower-case form of the argument.
#[verifier::external_body]
pub(crate) fn str_to_lowercase(s: &str) -> (lower: String)
    ensures
        lower@ == lowercase_of(s@),
{
    s.to_lowercase()
}

/// Calls `str::to_ascii_lowercase`: a copy in which each of `A` to `Z` is
/// replaced by its lower-case letter and nothing else changes.
#[verifier::external_body]
pub(crate) fn str_to_ascii_lowercase(s: &str) -> (lower: String)
    ensures
        lower@ == ascii_lower(s@),
{
    s.to_ascii_lowercase()
}

/// Calls `str::split` with the pattern `' '` and copies each piece into a
/// `String`, in order.
#[verifier::external_body]
pub(crate) fn split_spaces(s: &str) -> (pieces: Vec<String>)
    ensures
        texts(pieces@) == split_on(s@, ' '),
{
    s.split(' ').map(|piece| piece.to_string()).collect()
}

/// Formats an integer with `Display` for `u64`: its decimal numeral.
#[verifier::external_body]
pub(crate) fn u64_to_decimal(n: u64) -> (digits: String)
    ensures
        digits@ == decimal(n as nat),
{
    format!("{}", n)
}

/// Whether `wanted` is one of the texts in `list`.
pub fn list_contains(list: &Vec<String>, wanted: &String) -> (found: bool)
    ensures
        found == texts(list@).contains(wanted@),
{
    let mut i: usize = 0;
    while i < list.len()
        invariant
            i <= list.len(),
            forall|k: int| 0 <= k < i ==> list[k]@ != wanted@,
        decreases list.len() - i,
    {
        if list[i] == *wanted {
            assert(texts(list@)[i as int] == wanted@);
            return true;
        }
        i += 1;
    }
    assert forall|k: int| 0 <= k < texts(list@).len() implies texts(list@)[k] != wanted@ by {
        assert(texts(list@)[k] == list[k]@);
    }
    false
}

/// A copy of a list of texts with each text in ASCII lower case.
pub fn ascii_lowered(list: &Vec<String>) -> (lower: Vec<String>)
    ensures
        lower.len() == list.len(),
        forall|i: int| 0 <= i < list.len() ==> (#[trigger] lower[i])@ == ascii_lower(list[i]@),
{
    let mut lower: Vec<String> = Vec::new();
    let mut i: usize = 0;
    while i < list.len()
        invariant
            i <= list.len(),
            lower.len() == i,
            forall|k: int| 0 <= k < i ==> (#[trigger] lower[k])@ == ascii_lower(list[k]@),
        decreases list.len() - i,
    {
        lower.push(str_to_ascii_lowercase(list[i].as_str()));
        i += 1;
    }
    lower
}

/// A copy of a list of texts.
pub fn clone_texts(list: &Vec<String>) -> (copy: Vec<String>)
    ensures
        texts(copy@) == texts(list@),
{
    let mut copy: Vec<String> = Vec::new();
    let mut i: usize = 0;
    while i < list.len()
        invariant
            i <= list.len(),
            copy.len() == i,
            forall|k: int| 0 <= k < i ==> (#[trigger] copy[k])@ == list[k]@,
        decreases list.len() - i,
    {
        copy.push(list[i].clone());
        i += 1;
    }
    assert(texts(copy@) =~= texts(list@));
    copy
}

/// A finite set of texts, kept as a list in which no text stands twice.
#[derive(Debug)]
pub struct TextSet {
    items: Vec<String>,
}

impl View for TextSet {
    type V = Set<Seq<char>>;

    closed spec fn view(&self) -> Set<Seq<char>> {
        texts(self.items@).to_set()
    }
}

impl TextSet {
    /// The list holds no text twice.
    pub closed spec fn wf(&self) -> bool {
        texts(self.items@).no_duplicates()
    }

    /// The empty set.
    pub fn new() -> (set: Self)
        ensures
            set.wf(),
            set@ == Set::<Seq<char>>::empty(),
    {
        let set = TextSet { items: Vec::new() };
        assert(set@ =~= Set::<Seq<char>>::empty());
        set
    }

    /// Whether `value` is a member.
    pub fn contains(&self, value: &String) -> (found: bool)
        ensures
            found == self@.contains(value@),
    {
        list_contains(&self.items, value)
    }

    /// Adds `value`. Returns whether it was new.
    pub fn insert(&mut self, value: &String) -> (added: bool)
        ensures
            old(self).wf() ==> final(self).wf(),
            final(self)@ == old(self)@.insert(value@),
            added == !old(self)@.contains(value@),
    {
        if list_contains(&self.items, value) {
            assert(self@ =~= self@.insert(value@));
            false
        } else {
            let ghost before = texts(self.items@);
            self.items.push(value.clone());
            assert(texts(self.items@) =~= before.push(value@));
            assert(self@ =~= before.to_set().insert(value@)) by {
                assert forall|t: Seq<char>| #[trigger]
                    self@.contains(t) <==> before.to_set().insert(value@).contains(t) by {
                    if texts(self.items@).contains(t) {
                        let j = choose|j: int|
                            0 <= j < texts(self.items@).len() && texts(self.items@)[j] == t;
                        if j < before.len() {
                            assert(before[j] == t);
                        }
                    }
                    if before.contains(t) {
                        let j = choose|j: int| 0 <= j < before.len() && before[j] == t;
                        assert(texts(self.items@)[j] == t);
                    }
                    if t == value@ {
                        assert(texts(self.items@)[before.len() as int] == t);
                    }
                }
            }
            true
        }
    }
}

} // verus!
