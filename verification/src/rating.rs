//! Ratings, held as tenths of a point.

use crate::text::{decimal, push_decimal};
use vstd::prelude::*;

verus! {

/// The largest rating, in tenths: ten points.
pub const MAX_TENTHS: u8 = 100;

/// A title's aggregate score between 0.0 and 10.0, to one decimal place.
#[derive(Clone, Copy, Debug)]
pub struct Rating {
    tenths: u8,
}

impl View for Rating {
    type V = nat;

    /// The rating in tenths of a point.
    closed spec fn view(&self) -> nat {
        self.tenths as nat
    }
}

/// How a rating of `tenths` tenths of a point is shown: a star, the rating
/// with one decimal place, and the scale.
pub open spec fn rating_text(tenths: nat) -> Seq<char> {
    "\u{2b50}\u{fe0f} "@ + decimal(tenths / 10) + "."@ + decimal(tenths % 10) + "/10"@
}

impl Rating {
    #[verifier::type_invariant]
    spec fn in_range(self) -> bool {
        self.tenths <= MAX_TENTHS
    }

    /// The rating of `tenths` tenths of a point, if that is at most ten
    /// points.
    pub fn from_tenths(tenths: u8) -> (r: Option<Rating>)
        ensures
            tenths <= MAX_TENTHS ==> r is Some && r->0@ == tenths,
            tenths > MAX_TENTHS ==> r is None,
    {
        if tenths <= MAX_TENTHS {
            Some(Rating { tenths })
        } else {
            None
        }
    }

    /// The neutral rating, 0.0, that stands in for one that could not be
    /// fetched.
    pub fn fallback() -> (r: Rating)
        ensures
            r@ == 0,
    {
        Rating { tenths: 0 }
    }

    /// The rating in tenths of a point.
    pub fn tenths(&self) -> (t: u8)
        ensures
            t == self@,
            t <= MAX_TENTHS,
    {
        proof {
            use_type_invariant(self);
        }
        self.tenths
    }

    /// The text shown for the rating, such as `⭐️ 8.8/10`.
    pub fn text(&self) -> (s: String)
        ensures
            s@ == rating_text(self@),
    {
        let mut s = String::new();
        s.append("\u{2b50}\u{fe0f} ");
        push_decimal(&mut s, (self.tenths / 10) as u32);
        s.append(".");
        push_decimal(&mut s, (self.tenths % 10) as u32);
        s.append("/10");
        s
    }
}

} // verus!
