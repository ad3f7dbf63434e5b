//! Identifier wrappers and the combined image identifier.

use vstd::prelude::*;

use crate::digits::all_digits;
use crate::digits::dec_digits;
use crate::digits::dec_i64;
use crate::digits::digits_val;
use crate::digits::format_i64;
use crate::digits::format_u64;
use crate::digits::parse_i64;
use crate::digits::parse_u8;
use crate::digits::is_digit;
use crate::digits::lemma_dec_digits_faithful;
use crate::specific::image::ImageType;
use crate::util::find_from;
use crate::util::lemma_find_from_hits;
use crate::util::scan_char;

verus! {

/// The database identifier of a book; 0 stands for "none".
#[derive(Debug, Clone, Copy, PartialEq, Eq, Hash, Structural)]
pub struct BookId(pub i64);

impl BookId {
    pub fn none() -> (r: Self)
        ensures
            r.0 == 0,
    {
        Self(0)
    }

    pub fn is_none(self) -> (r: bool)
        ensures
            r == (self.0 == 0),
    {
        self.0 == 0
    }

    pub fn new(value: i64) -> (r: Self)
        ensures
            r.0 == value,
    {
        Self(value)
    }

    pub fn value(self) -> (r: i64)
        ensures
            r == self.0,
    {
        self.0
    }
}

/// The database identifier of a person; 0 stands for "none".
#[derive(Debug, Clone, Copy, PartialEq, Eq, Hash, Structural)]
pub struct PersonId(pub i64);

impl PersonId {
    pub fn none() -> (r: Self)
        ensures
            r.0 == 0,
    {
        Self(0)
    }

    pub fn is_none(self) -> (r: bool)
        ensures
            r == (self.0 == 0),
    {
        self.0 == 0
    }

    pub fn new(value: i64) -> (r: Self)
        ensures
            r.0 == value,
    {
        Self(value)
    }

    pub fn value(self) -> (r: i64)
        ensures
            r == self.0,
    {
        self.0
    }
}

/// An identifier together with the kind of record it points at, written
/// as `id-kind` text when exchanged.
#[derive(Debug, Clone, Copy, PartialEq, Eq, Structural)]
pub struct ImageIdType {
    pub id: i64,
    pub type_of: ImageType,
}

/// The `id-kind` text of an image identifier.
pub open spec fn spec_image_id_string(v: ImageIdType) -> Seq<char> {
    dec_i64(v.id as int) + seq!['-'] + dec_digits(v.type_of.spec_as_num() as int)
}

/// What `id-kind` text parses to: malformed text falls back to the
/// zero book identifier.
pub open spec fn spec_parse_image_id(s: Seq<char>) -> ImageIdType {
    let i = find_from(s, '-', 0);
    let fallback = ImageIdType { id: 0, type_of: ImageType::Book };
    if i < s.len() {
        let l = s.subrange(0, i);
        let rest = s.subrange(i + 1, s.len() as int);
        if l.len() > 0 && all_digits(l) && digits_val(l) <= i64::MAX && rest.len() > 0
            && all_digits(rest) && digits_val(rest) <= 1 {
            ImageIdType {
                id: digits_val(l) as i64,
                type_of: if digits_val(rest) == 0 {
                    ImageType::Book
                } else {
                    ImageType::Person
                },
            }
        } else {
            fallback
        }
    } else {
        fallback
    }
}

impl ImageIdType {
    pub fn new_book(value: BookId) -> (r: Self)
        ensures
            r.id == value.0,
            r.type_of == ImageType::Book,
    {
        Self { id: value.value(), type_of: ImageType::Book }
    }

    pub fn new_person(value: PersonId) -> (r: Self)
        ensures
            r.id == value.0,
            r.type_of == ImageType::Person,
    {
        Self { id: value.value(), type_of: ImageType::Person }
    }

    /// The `id-kind` text of this identifier.
    pub fn as_string(&self) -> (r: String)
        ensures
            r@ == spec_image_id_string(*self),
    {
        let mut r = format_i64(self.id);
        let dash = "-";
        proof {
            reveal_strlit("-");
            assert(dash@ =~= seq!['-']);
        }
        r.append(dash);
        let n = format_u64(self.type_of.as_num() as u64);
        r.append(n.as_str());
        proof {
            assert(r@ =~= spec_image_id_string(*self));
        }
        r
    }

    /// The `id-kind` text of an identifier with a non-negative number
    /// parses back to exactly that identifier: the text format is a
    /// faithful round trip.
    pub proof fn lemma_text_round_trip(v: ImageIdType)
        requires
            v.id >= 0,
        ensures
            spec_parse_image_id(spec_image_id_string(v)) == v,
    {
        let num = v.type_of.spec_as_num() as int;
        lemma_dec_digits_faithful(v.id as int);
        lemma_dec_digits_faithful(num);
        let l = dec_digits(v.id as int);
        let rest = dec_digits(num);
        let s = spec_image_id_string(v);
        let sep = l.len() as int;
        assert(s == dec_i64(v.id as int) + seq!['-'] + rest);
        assert(s[sep] == '-');
        assert(forall|k: int| 0 <= k < sep ==> s[k] == l[k]);
        assert(forall|k: int| 0 <= k < sep ==> s[k] != '-') by {
            assert(forall|k: int| 0 <= k < sep ==> is_digit(#[trigger] s[k]));
        }
        lemma_find_from_hits(s, '-', 0, sep);
        assert(s.subrange(0, sep) =~= l);
        assert(s.subrange(sep + 1, s.len() as int) =~= rest);
    }

    /// Parse `id-kind` text; anything malformed falls back to the zero
    /// book identifier.
    pub fn from_str(s: &str) -> (r: Self)
        ensures
            r == spec_parse_image_id(s@),
    {
        let len = s.unicode_len();
        let i = scan_char(s, '-', 0);
        if i >= len {
            return Self { id: 0, type_of: ImageType::Book };
        }
        let l = s.substring_char(0, i);
        let rest = s.substring_char(i + 1, len);
        match (parse_i64(l), parse_u8(rest)) {
            (Some(id), Some(n)) => match ImageType::from_number(n) {
                Some(type_of) => Self { id, type_of },
                None => Self { id: 0, type_of: ImageType::Book },
            },
            _ => Self { id: 0, type_of: ImageType::Book },
        }
    }
}

} // verus!
