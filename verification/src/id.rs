//! Server-assigned identifiers.

use vstd::prelude::*;

verus! {

/// The shape of a track identifier: everything that starts with `TR_`.
pub open spec fn valid_track_sid(s: Seq<char>) -> bool {
    s.len() >= 3 && s[0] == 'T' && s[1] == 'R' && s[2] == '_'
}

/// Whether `s` has the shape of a track identifier.
pub fn is_track_sid(s: &str) -> (r: bool)
    ensures
        r == valid_track_sid(s@),
{
    s.unicode_len() >= 3 && s.get_char(0) == 'T' && s.get_char(1) == 'R' && s.get_char(2) == '_'
}

/// Identifier of a track. Every value of this type starts with `TR_`.
#[derive(Debug, PartialEq, Eq, Hash)]
pub struct TrackSid {
    value: String,
}

impl View for TrackSid {
    type V = Seq<char>;

    closed spec fn view(&self) -> Seq<char> {
        self.value@
    }
}

impl TrackSid {
    #[verifier::type_invariant]
    spec fn well_formed(self) -> bool {
        valid_track_sid(self.value@)
    }

    /// Takes `value` as a track identifier, or hands it back if it is none.
    pub fn try_from(value: String) -> (r: Result<TrackSid, String>)
        ensures
            r is Ok <==> valid_track_sid(value@),
            r matches Ok(sid) ==> sid@ == value@,
            r matches Err(back) ==> back == value,
    {
        if is_track_sid(value.as_str()) {
            Ok(TrackSid { value })
        } else {
            Err(value)
        }
    }

    /// The identifier as text.
    pub fn as_str(&self) -> (r: &str)
        ensures
            r@ == self@,
            valid_track_sid(r@),
    {
        proof {
            use_type_invariant(self);
        }
        self.value.as_str()
    }
}

impl Clone for TrackSid {
    fn clone(&self) -> (r: TrackSid)
        ensures
            r@ == self@,
    {
        proof {
            use_type_invariant(self);
        }
        TrackSid { value: self.value.clone() }
    }
}

} // verus!
