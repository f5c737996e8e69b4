//! The two traits every catalogue of names shares.

use vstd::prelude::*;
use vstd::string::StrSliceExecFns;
use vstd::string::StringSliceAdditionalSpecFns;
use vstd::utf8::*;

verus! {

/// The bytes the host reads for a name: its UTF-8 encoding and a terminating
/// zero.
pub open spec fn wire_name(name: Seq<char>) -> Seq<u8> {
    encode_utf8(name).push(0u8)
}

/// Whether the encoding of a name holds a zero byte. Such a name cannot be
/// handed to the host: the host would read it up to that byte only.
pub open spec fn has_nul(name: Seq<char>) -> bool {
    encode_utf8(name).contains(0u8)
}

/// Whether the bytes are a terminated string: the last of them is zero and
/// none before it is.
pub open spec fn is_c_string(bytes: Seq<u8>) -> bool {
    bytes.len() > 0 && bytes.last() == 0 && !bytes.drop_last().contains(0u8)
}

/// Whether a name is made of ASCII characters, the zero character excepted.
pub open spec fn is_plain(name: Seq<char>) -> bool {
    forall|i: int| 0 <= i < name.len() ==> '\u{1}' <= #[trigger] name[i] <= '\u{7f}'
}

/// A plain name holds no zero byte.
pub proof fn lemma_plain_name(name: Seq<char>)
    requires
        is_plain(name),
    ensures
        !has_nul(name),
{
    assert(is_ascii_chars(name));
    is_ascii_chars_encode_utf8(name);
    let bytes = encode_utf8(name);
    assert forall|i: int| 0 <= i < bytes.len() implies bytes[i] != 0 by {
        assert(name[i] as u8 == bytes[i]);
    }
}

/// The wire string of a name that holds no zero byte is a terminated string.
pub proof fn lemma_wire_name(name: Seq<char>)
    requires
        !has_nul(name),
    ensures
        is_c_string(wire_name(name)),
{
    assert(wire_name(name).drop_last() =~= encode_utf8(name));
}

/// Encodes `name` as the host reads it.
pub fn encode_name(name: &str) -> (bytes: Vec<u8>)
    ensures
        bytes@ == wire_name(name@),
        !has_nul(name@) ==> is_c_string(bytes@),
{
    proof {
        if !has_nul(name@) {
            lemma_wire_name(name@);
        }
    }
    let mut bytes = name.as_bytes_vec();
    bytes.push(0u8);
    bytes
}

/// What `str::to_lowercase` makes of a text.
pub uninterp spec fn lowercase(text: Seq<char>) -> Seq<char>;

/// `str::to_lowercase` depends on the characters of its argument alone, so its
/// result has a name; nothing else is claimed of it.
pub assume_specification[ str::to_lowercase ](text: &str) -> (lower: String)
    ensures
        lower@ == lowercase(text@),
;

/// The first position at which `items` holds `wanted`, if it holds it at all.
pub open spec fn first_position(items: Seq<Seq<char>>, wanted: Seq<char>) -> Option<int>
    decreases items.len(),
{
    if items.len() == 0 {
        None
    } else if items[0] == wanted {
        Some(0)
    } else {
        match first_position(items.drop_first(), wanted) {
            Some(i) => Some(i + 1),
            None => None,
        }
    }
}

/// `first_position` answers with a position that holds `wanted` and has none
/// before it that does, and answers with nothing only if no position does.
pub proof fn lemma_first_position(items: Seq<Seq<char>>, wanted: Seq<char>)
    ensures
        match first_position(items, wanted) {
            Some(i) => 0 <= i < items.len() && items[i] == wanted && forall|j: int|
                0 <= j < i ==> items[j] != wanted,
            None => forall|j: int| 0 <= j < items.len() ==> items[j] != wanted,
        },
    decreases items.len(),
{
    if items.len() > 0 && items[0] != wanted {
        let rest = items.drop_first();
        lemma_first_position(rest, wanted);
        match first_position(rest, wanted) {
            Some(i) => {
                assert forall|j: int| 0 <= j < i + 1 implies items[j] != wanted by {
                    if j > 0 {
                        assert(items[j] == rest[j - 1]);
                    }
                }
            },
            None => {
                assert forall|j: int| 0 <= j < items.len() implies items[j] != wanted by {
                    if j > 0 {
                        assert(items[j] == rest[j - 1]);
                    }
                }
            },
        }
    }
}

/// A position that holds `wanted`, with none before it that does, is the one
/// `first_position` answers with.
pub proof fn lemma_first_position_is(items: Seq<Seq<char>>, wanted: Seq<char>, at: int)
    requires
        0 <= at < items.len(),
        items[at] == wanted,
        forall|j: int| 0 <= j < at ==> items[j] != wanted,
    ensures
        first_position(items, wanted) == Some(at),
    decreases at,
{
    if at > 0 {
        let rest = items.drop_first();
        assert(rest[at - 1] == items[at]);
        assert forall|j: int| 0 <= j < at - 1 implies rest[j] != wanted by {
            assert(rest[j] == items[j + 1]);
        }
        lemma_first_position_is(rest, wanted, at - 1);
    }
}

/// The texts that a vector of strings holds.
pub open spec fn texts(strings: Seq<String>) -> Seq<Seq<char>> {
    Seq::new(strings.len(), |i: int| strings[i]@)
}

/// Finds the first string equal to `wanted`.
pub fn position_of(items: &Vec<String>, wanted: &String) -> (r: Option<usize>)
    ensures
        match r {
            Some(i) => first_position(texts(items@), wanted@) == Some(i as int),
            None => first_position(texts(items@), wanted@) is None,
        },
{
    let mut i: usize = 0;
    while i < items.len()
        invariant
            i <= items.len(),
            forall|j: int| 0 <= j < i ==> texts(items@)[j] != wanted@,
        decreases items.len() - i,
    {
        if items[i] == *wanted {
            proof {
                lemma_first_position_is(texts(items@), wanted@, i as int);
            }
            return Some(i);
        }
        i += 1;
    }
    proof {
        lemma_first_position(texts(items@), wanted@);
    }
    None
}

/// Every text of `names` in lower case.
pub open spec fn lowered(names: Seq<Seq<char>>) -> Seq<Seq<char>> {
    Seq::new(names.len(), |i: int| lowercase(names[i]))
}

/// The position of the first of `names` that equals `text` once both are in
/// lower case.
pub open spec fn name_position(names: Seq<Seq<char>>, text: Seq<char>) -> Option<int> {
    first_position(lowered(names), lowercase(text))
}

/// Looks `text` up among `names` without regard to case.
pub fn find_name(names: &Vec<String>, text: &str) -> (r: Option<usize>)
    ensures
        match r {
            Some(i) => name_position(texts(names@), text@) == Some(i as int),
            None => name_position(texts(names@), text@) is None,
        },
{
    let wanted = text.to_lowercase();
    let mut lower: Vec<String> = Vec::new();
    let mut i: usize = 0;
    while i < names.len()
        invariant
            i <= names.len(),
            lower@.len() == i,
            forall|j: int| 0 <= j < i ==> lower@[j]@ == lowercase(names@[j]@),
        decreases names.len() - i,
    {
        lower.push(names[i].as_str().to_lowercase());
        i += 1;
    }
    assert(texts(lower@) =~= lowered(texts(names@)));
    position_of(&lower, &wanted)
}

/// A text that names no variant of the enumeration it was parsed for.
#[derive(Clone, Copy, Debug, PartialEq, Eq, Structural)]
pub struct UnknownName;

/// A closed enumeration that can list its variants in declaration order.
pub trait IterEnum {
    type Item;

    /// Every variant, in declaration order.
    spec fn variants() -> Seq<Self::Item>;

    fn iter_enum() -> (all: Vec<Self::Item>)
        ensures
            all@ == Self::variants(),
    ;
}

/// A value the host knows by name.
pub trait ToSimConnect {
    /// The name, exactly as the host spells it.
    spec fn sim_name(&self) -> Seq<char>;

    /// The name holds no zero byte, so that the host reads all of it.
    proof fn lemma_sim_name(&self)
        ensures
            !has_nul(self.sim_name()),
    ;

    /// The name as a string.
    fn to_string(&self) -> (s: String)
        ensures
            s@ == self.sim_name(),
    ;

    /// The name as a terminated wire string.
    fn sc_string(&self) -> (bytes: Vec<u8>)
        ensures
            bytes@ == wire_name(self.sim_name()),
            is_c_string(bytes@),
    {
        proof {
            self.lemma_sim_name();
        }
        let name = self.to_string();
        encode_name(name.as_str())
    }
}

/// The names of a sequence of values.
pub open spec fn names_of<T: ToSimConnect>(values: Seq<T>) -> Seq<Seq<char>> {
    Seq::new(values.len(), |i: int| values[i].sim_name())
}

/// Parses the name of a variant without regard to case. Where the text matches
/// the names of several variants, the one declared first is returned.
pub fn parse_name<T: IterEnum<Item = T> + ToSimConnect + Copy>(text: &str) -> (r: Result<
    T,
    UnknownName,
>)
    ensures
        r == match name_position(names_of(T::variants()), text@) {
            Some(i) => Ok::<T, UnknownName>(T::variants()[i]),
            None => Err(UnknownName),
        },
{
    let all = T::iter_enum();
    let mut names: Vec<String> = Vec::new();
    let mut i: usize = 0;
    while i < all.len()
        invariant
            i <= all.len(),
            names@.len() == i,
            forall|j: int| 0 <= j < i ==> names@[j]@ == all@[j].sim_name(),
        decreases all.len() - i,
    {
        names.push(all[i].to_string());
        i += 1;
    }
    proof {
        assert(texts(names@) =~= names_of(T::variants()));
        lemma_first_position(lowered(names_of(T::variants())), lowercase(text@));
    }
    match find_name(&names, text) {
        Some(at) => Ok(all[at]),
        None => Err(UnknownName),
    }
}

} // verus!
