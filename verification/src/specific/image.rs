//! Image kinds and the stored location of a thumbnail.

use vstd::prelude::*;

verus! {

/// What kind of record an image belongs to.
#[derive(Debug, Clone, Copy, PartialEq, Eq, Structural)]
pub enum ImageType {
    Book,
    Person,
}

impl ImageType {
    /// The numeric tag of this kind.
    pub open spec fn spec_as_num(self) -> u8 {
        match self {
            ImageType::Book => 0,
            ImageType::Person => 1,
        }
    }

    pub fn as_num(self) -> (r: u8)
        ensures
            r == self.spec_as_num(),
    {
        match self {
            ImageType::Book => 0,
            ImageType::Person => 1,
        }
    }

    /// The kind a numeric tag denotes, if any.
    pub open spec fn spec_from_number(value: u8) -> Option<ImageType> {
        if value == 0 {
            Some(ImageType::Book)
        } else if value == 1 {
            Some(ImageType::Person)
        } else {
            None
        }
    }

    pub fn from_number(value: u8) -> (r: Option<Self>)
        ensures
            r == Self::spec_from_number(value),
    {
        match value {
            0 => Some(Self::Book),
            1 => Some(Self::Person),
            _ => None,
        }
    }
}

/// Where a record's thumbnail lives, if it has one.
#[derive(Debug, Clone, PartialEq, Eq)]
pub enum ThumbnailStore {
    Path(String),
    Missing,
}

impl ThumbnailStore {
    pub fn is_none(&self) -> (r: bool)
        ensures
            r == (self is Missing),
    {
        matches!(self, Self::Missing)
    }

    pub fn is_some(&self) -> (r: bool)
        ensures
            r == (self is Path),
    {
        !self.is_none()
    }

    pub fn as_value(&self) -> (r: Option<&str>)
        ensures
            match self {
                ThumbnailStore::Path(v) => r matches Some(s) && s@ == v@,
                ThumbnailStore::Missing => r is None,
            },
    {
        match self {
            Self::Path(v) => Some(v.as_str()),
            Self::Missing => None,
        }
    }

    pub fn into_value(self) -> (r: Option<String>)
        ensures
            match self {
                ThumbnailStore::Path(v) => r == Some(v),
                ThumbnailStore::Missing => r is None,
            },
    {
        match self {
            Self::Path(v) => Some(v),
            Self::Missing => None,
        }
    }
}

} // verus!
