//! The fields of a brand: what stands between its slashes. The first
//! segment names the family; the others tell the loader and the version, and
//! serve diagnostics only.

use super::ClientType;
use vstd::prelude::*;
use vstd::string::{StrSliceExecFns, StringExecFns};

verus! {

/// Where the first slash of `text` stands, if it has one.
pub open spec fn first_slash(text: Seq<char>) -> Option<int>
    decreases text.len(),
{
    if text.len() == 0 {
        None
    } else if text[0] == '/' {
        Some(0)
    } else {
        match first_slash(text.drop_first()) {
            Some(at) => Some(at + 1),
            None => None,
        }
    }
}

/// `first_slash` finds the leftmost slash, and finds none only where there is none.
pub proof fn lemma_first_slash(text: Seq<char>)
    ensures
        match first_slash(text) {
            Some(at) => 0 <= at < text.len() && text[at] == '/' && forall|i: int|
                0 <= i < at ==> text[i] != '/',
            None => forall|i: int| 0 <= i < text.len() ==> text[i] != '/',
        },
    decreases text.len(),
{
    if text.len() > 0 && text[0] != '/' {
        let rest = text.drop_first();
        lemma_first_slash(rest);
        match first_slash(rest) {
            Some(at) => {
                assert forall|i: int| 0 <= i < at + 1 implies text[i] != '/' by {
                    if i > 0 {
                        assert(text[i] == rest[i - 1]);
                    }
                }
            },
            None => {
                assert forall|i: int| 0 <= i < text.len() implies text[i] != '/' by {
                    if i > 0 {
                        assert(text[i] == rest[i - 1]);
                    }
                }
            },
        }
    }
}

/// Finds the first slash of `text`, counted in characters.
pub fn find_slash(text: &str) -> (found: Option<usize>)
    ensures
        match first_slash(text@) {
            Some(at) => found == Some(at as usize) && 0 <= at < text@.len() <= usize::MAX,
            None => found is None,
        },
{
    let length = text.unicode_len();
    let mut at: usize = 0;
    let mut found: Option<usize> = None;
    proof {
        lemma_first_slash(text@);
    }
    for c in it: text.chars()
        invariant
            it.seq() == text@,
            length == text@.len(),
            found is None ==> at == it.index() && forall|i: int|
                0 <= i < at ==> text@[i] != '/',
            found matches Some(i) ==> first_slash(text@) == Some(i as int),
            first_slash(text@) matches Some(first) ==> 0 <= first < text@.len() && text@[first]
                == '/' && forall|i: int| 0 <= i < first ==> text@[i] != '/',
            first_slash(text@) is None ==> forall|i: int|
                0 <= i < text@.len() ==> text@[i] != '/',
    {
        if found.is_none() {
            assert(c == text@[at as int]);
            if c == '/' {
                assert(first_slash(text@) matches Some(first) && first == at);
                found = Some(at);
            } else {
                at = at + 1;
            }
        }
    }
    found
}

/// The part of `text` before its first slash: all of it when it has none.
pub open spec fn head(text: Seq<char>) -> Seq<char> {
    match first_slash(text) {
        Some(at) => text.take(at),
        None => text,
    }
}

/// What follows the first slash of `text`, when it has one.
pub open spec fn tail(text: Seq<char>) -> Option<Seq<char>> {
    match first_slash(text) {
        Some(at) => Some(text.skip(at + 1)),
        None => None,
    }
}

/// The segment of `text` with the number `index`, counted from 0, when
/// `text` has that many slashes.
pub open spec fn segment(text: Seq<char>, index: nat) -> Option<Seq<char>>
    decreases index,
{
    if index == 0 {
        Some(head(text))
    } else {
        match tail(text) {
            Some(rest) => segment(rest, (index - 1) as nat),
            None => None,
        }
    }
}

/// Splitting loses nothing: the head holds no slash, and where there is a
/// tail, head, slash and tail make up the text again.
pub proof fn lemma_split_rejoins(text: Seq<char>)
    ensures
        forall|i: int| 0 <= i < head(text).len() ==> head(text)[i] != '/',
        match tail(text) {
            Some(rest) => text == head(text) + seq!['/'] + rest,
            None => text == head(text),
        },
{
    lemma_first_slash(text);
    match first_slash(text) {
        Some(at) => {
            assert(text =~= text.take(at) + seq!['/'] + text.skip(at + 1));
        },
        None => {},
    }
}

/// Splits `text` at its first slash.
pub fn split_first(text: &str) -> (parts: (&str, Option<&str>))
    ensures
        parts.0@ == head(text@),
        match tail(text@) {
            Some(rest) => parts.1 matches Some(found) && found@ == rest,
            None => parts.1 is None,
        },
{
    match find_slash(text) {
        None => (text, None),
        Some(at) => {
            let length = text.unicode_len();
            let first = text.substring_char(0, at);
            let rest = text.substring_char(at + 1, length);
            proof {
                assert(text@.subrange(0, at as int) =~= text@.take(at as int));
                assert(text@.subrange(at + 1, length as int) =~= text@.skip(at + 1));
            }
            (first, Some(rest))
        },
    }
}

/// What a brand tells of its client beyond the family.
#[derive(Debug, Clone, PartialEq, Eq)]
pub struct BrandFields {
    /// The mod loader, where the family's brands name one.
    pub loader: Option<String>,
    /// The version of the client.
    pub version: Option<String>,
}

/// The segment of a brand that names the loader: the second one of a
/// Minecraft brand; a Terraria brand names none.
pub open spec fn loader_of(family: ClientType, brand: Seq<char>) -> Option<Seq<char>> {
    match family {
        ClientType::Minecraft => segment(brand, 1),
        ClientType::Terraria => None,
    }
}

/// The segment of a brand that tells the version: the third one of a
/// Minecraft brand, the second one of a Terraria brand.
pub open spec fn version_of(family: ClientType, brand: Seq<char>) -> Option<Seq<char>> {
    match family {
        ClientType::Minecraft => segment(brand, 2),
        ClientType::Terraria => segment(brand, 1),
    }
}

/// Reads the loader and the version out of the brand of a client of
/// `family`. A brand with too few segments leaves the field empty.
pub fn brand_fields(family: ClientType, brand: &str) -> (fields: BrandFields)
    ensures
        match loader_of(family, brand@) {
            Some(loader) => fields.loader matches Some(text) && text@ == loader,
            None => fields.loader is None,
        },
        match version_of(family, brand@) {
            Some(version) => fields.version matches Some(text) && text@ == version,
            None => fields.version is None,
        },
{
    proof {
        reveal_with_fuel(segment, 3);
    }
    let (_, after_family) = split_first(brand);
    let after_family = match after_family {
        Some(rest) => rest,
        None => {
            return BrandFields { loader: None, version: None };
        },
    };
    let (second, after_second) = split_first(after_family);
    match family {
        ClientType::Terraria => BrandFields {
            loader: None,
            version: Some(String::from_str(second)),
        },
        ClientType::Minecraft => {
            let version = match after_second {
                Some(rest) => Some(String::from_str(split_first(rest).0)),
                None => None,
            };
            BrandFields { loader: Some(String::from_str(second)), version }
        },
    }
}

} // verus!
