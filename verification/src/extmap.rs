use vstd::prelude::*;

use crate::text::{decimal_string, spec_dec};

verus! {

/// The declared direction of an RTP header extension.
#[derive(Clone, Copy, Debug, PartialEq, Eq, Structural)]
pub enum Direction {
    SendRecv,
    SendOnly,
    RecvOnly,
    Inactive,
    Unspecified,
}

/// The session-description token for a direction; empty when unspecified.
pub open spec fn spec_direction_chars(d: Direction) -> Seq<char> {
    match d {
        Direction::SendRecv => seq!['s', 'e', 'n', 'd', 'r', 'e', 'c', 'v'],
        Direction::SendOnly => seq!['s', 'e', 'n', 'd', 'o', 'n', 'l', 'y'],
        Direction::RecvOnly => seq!['r', 'e', 'c', 'v', 'o', 'n', 'l', 'y'],
        Direction::Inactive => seq!['i', 'n', 'a', 'c', 't', 'i', 'v', 'e'],
        Direction::Unspecified => Seq::empty(),
    }
}

impl Direction {
    /// The session-description token for this direction.
    pub fn as_sdp_str(&self) -> (r: &'static str)
        ensures
            r@ == spec_direction_chars(*self),
    {
        proof {
            reveal_strlit("sendrecv");
            reveal_strlit("sendonly");
            reveal_strlit("recvonly");
            reveal_strlit("inactive");
            reveal_strlit("");
        }
        match self {
            Direction::SendRecv => "sendrecv",
            Direction::SendOnly => "sendonly",
            Direction::RecvOnly => "recvonly",
            Direction::Inactive => "inactive",
            Direction::Unspecified => "",
        }
    }
}

impl Default for Direction {
    fn default() -> (r: Self)
        ensures
            r == Direction::Unspecified,
    {
        Direction::Unspecified
    }
}

/// One session-description attribute: a key with an optional value.
#[derive(Debug)]
pub struct Attribute {
    pub key: String,
    pub value: Option<String>,
}

/// The activation of a single RTP header extension: its mapped value, an
/// optional direction, the extension URI (carried as its text form), and an
/// optional extension attribute.
#[derive(Debug)]
pub struct ExtMap {
    pub value: isize,
    pub direction: Direction,
    pub uri: Option<String>,
    pub ext_attr: Option<String>,
}

/// The display form of an extension activation: the value, `/direction` when
/// one is specified, then the URI and the extension attribute, each preceded
/// by one space when present.
pub open spec fn spec_extmap_chars(e: ExtMap) -> Seq<char> {
    spec_dec(e.value as int) + (if e.direction != Direction::Unspecified {
        seq!['/'] + spec_direction_chars(e.direction)
    } else {
        Seq::empty()
    }) + (match e.uri {
        Some(u) => seq![' '] + u@,
        None => Seq::empty(),
    }) + (match e.ext_attr {
        Some(a) => seq![' '] + a@,
        None => Seq::empty(),
    })
}

impl Clone for ExtMap {
    fn clone(&self) -> (r: Self)
        ensures
            r == *self,
    {
        ExtMap {
            value: self.value,
            direction: self.direction,
            uri: self.uri.clone(),
            ext_attr: self.ext_attr.clone(),
        }
    }
}

impl Default for ExtMap {
    fn default() -> (r: Self)
        ensures
            r.value == 0,
            r.direction == Direction::Unspecified,
            r.uri is None,
            r.ext_attr is None,
    {
        ExtMap { value: 0, direction: Direction::Unspecified, uri: None, ext_attr: None }
    }
}

impl ExtMap {
    /// Renders this activation in its display form, exactly as
    /// `spec_extmap_chars` states.
    pub fn display_string(&self) -> (r: String)
        ensures
            r@ == spec_extmap_chars(*self),
    {
        let mut out = decimal_string(self.value);
        if !matches!(self.direction, Direction::Unspecified) {
            proof {
                reveal_strlit("/");
            }
            out.append("/");
            out.append(self.direction.as_sdp_str());
        }
        proof {
            reveal_strlit(" ");
        }
        if let Some(u) = &self.uri {
            out.append(" ");
            out.append(u.as_str());
        }
        if let Some(a) = &self.ext_attr {
            out.append(" ");
            out.append(a.as_str());
        }
        proof {
            assert(out@ =~= spec_extmap_chars(*self));
        }
        out
    }

    /// Converts this activation to a session-description attribute under the
    /// `extmap` key.
    pub fn convert(&self) -> (r: Attribute)
        ensures
            r.key@ == seq!['e', 'x', 't', 'm', 'a', 'p'],
            r.value matches Some(v) && v@ == spec_extmap_chars(*self),
    {
        proof {
            reveal_strlit("extmap");
        }
        let key: String = "extmap".to_owned();
        proof {
            assert(key@ =~= seq!['e', 'x', 't', 'm', 'a', 'p']);
        }
        Attribute { key, value: Some(self.display_string()) }
    }

    /// Renders this activation as a full `extmap:` attribute line.
    pub fn marshal(&self) -> (r: String)
        ensures
            r@ == seq!['e', 'x', 't', 'm', 'a', 'p', ':'] + spec_extmap_chars(*self),
    {
        proof {
            reveal_strlit("extmap:");
        }
        let mut out: String = "extmap:".to_owned();
        let rest = self.display_string();
        out.append(rest.as_str());
        proof {
            assert(out@ =~= seq!['e', 'x', 't', 'm', 'a', 'p', ':'] + spec_extmap_chars(*self));
        }
        out
    }
}

} // verus!
