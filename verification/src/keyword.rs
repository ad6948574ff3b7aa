//! Keyword vocabularies: the exact, case-sensitive words by which the
//! enumerations of the model are written and read.
use vstd::prelude::*;

verus! {

/// An enumeration whose values are written as keywords.
pub trait LefKeyword: Sized {
    /// The keyword that stands for this value.
    spec fn keyword(self) -> Seq<char>;

    /// No two values share a keyword.
    proof fn lemma_keyword_injective(a: Self, b: Self)
        requires
            a.keyword() == b.keyword(),
        ensures
            a == b,
    ;
}

/// The value that `text` stands for: the one whose keyword is `text`, if any.
pub open spec fn parse_keyword<K: LefKeyword>(text: Seq<char>) -> Option<K> {
    if exists|v: K| v.keyword() == text {
        Some(choose|v: K| v.keyword() == text)
    } else {
        None
    }
}

/// What a parser returns for `text`: the value it stands for, or the unit error.
pub open spec fn parse_result<K: LefKeyword>(text: Seq<char>) -> Result<K, ()> {
    match parse_keyword::<K>(text) {
        Some(v) => Ok(v),
        None => Err(()),
    }
}

/// Reading back the keyword of a value gives that value.
pub proof fn lemma_parse_round_trip<K: LefKeyword>(v: K)
    ensures
        parse_keyword::<K>(v.keyword()) == Some(v),
{
    let found = choose|w: K| w.keyword() == v.keyword();
    K::lemma_keyword_injective(found, v);
}

/// A text is read as `v` exactly when it is the keyword of `v`.
pub proof fn lemma_parse_sound<K: LefKeyword>(text: Seq<char>, v: K)
    ensures
        parse_keyword::<K>(text) == Some(v) <==> v.keyword() == text,
{
    if v.keyword() == text {
        lemma_parse_round_trip(v);
    }
}

} // verus!
