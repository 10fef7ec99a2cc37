use vstd::prelude::*;

verus! {

/// The character of a decimal digit.
pub open spec fn digit_char(d: nat) -> char {
    if d == 0 {
        '0'
    } else if d == 1 {
        '1'
    } else if d == 2 {
        '2'
    } else if d == 3 {
        '3'
    } else if d == 4 {
        '4'
    } else if d == 5 {
        '5'
    } else if d == 6 {
        '6'
    } else if d == 7 {
        '7'
    } else if d == 8 {
        '8'
    } else {
        '9'
    }
}

/// The decimal notation of `n`, without leading zeros.
pub open spec fn decimal(n: nat) -> Seq<char>
    decreases n,
{
    if n < 10 {
        seq![digit_char(n)]
    } else {
        decimal(n / 10).push(digit_char(n % 10))
    }
}

/// The id under which a release is published: `major.minor`, followed by
/// `.patch` unless the patch number is zero.
pub open spec fn release_id(v: (u32, u32, u32)) -> Seq<char> {
    decimal(v.0 as nat) + seq!['.'] + decimal(v.1 as nat) + if v.2 == 0 {
        Seq::<char>::empty()
    } else {
        seq!['.'] + decimal(v.2 as nat)
    }
}

fn digit_text(d: u32) -> (r: &'static str)
    requires
        d < 10,
    ensures
        r@ == seq![digit_char(d as nat)],
{
    proof {
        reveal_strlit("0");
        reveal_strlit("1");
        reveal_strlit("2");
        reveal_strlit("3");
        reveal_strlit("4");
        reveal_strlit("5");
        reveal_strlit("6");
        reveal_strlit("7");
        reveal_strlit("8");
        reveal_strlit("9");
    }
    let r = if d == 0 {
        "0"
    } else if d == 1 {
        "1"
    } else if d == 2 {
        "2"
    } else if d == 3 {
        "3"
    } else if d == 4 {
        "4"
    } else if d == 5 {
        "5"
    } else if d == 6 {
        "6"
    } else if d == 7 {
        "7"
    } else if d == 8 {
        "8"
    } else {
        "9"
    };
    assert(r@ =~= seq![digit_char(d as nat)]);
    r
}

fn append_decimal(s: &mut String, n: u32)
    ensures
        final(s)@ == old(s)@ + decimal(n as nat),
    decreases n,
{
    if n >= 10 {
        append_decimal(s, n / 10);
    }
    s.append(digit_text(n % 10));
    assert(final(s)@ =~= old(s)@ + decimal(n as nat));
}

/// A release number `major.minor.patch`.
#[derive(Debug, Clone, Copy, PartialEq, Eq, Structural)]
pub struct Version {
    major: u32,
    minor: u32,
    patch: u32,
}

impl Version {
    pub closed spec fn parts(&self) -> (u32, u32, u32) {
        (self.major, self.minor, self.patch)
    }

    pub fn new(major: u32, minor: u32, patch: u32) -> (r: Self)
        ensures
            r.parts() == (major, minor, patch),
    {
        Version { major, minor, patch }
    }

    pub fn major(&self) -> (r: u32)
        ensures
            r == self.parts().0,
    {
        self.major
    }

    pub fn minor(&self) -> (r: u32)
        ensures
            r == self.parts().1,
    {
        self.minor
    }

    pub fn patch(&self) -> (r: u32)
        ensures
            r == self.parts().2,
    {
        self.patch
    }

    /// The id under which this release is published.
    pub fn release_id(&self) -> (r: String)
        ensures
            r@ == release_id(self.parts()),
    {
        let mut s = String::new();
        append_decimal(&mut s, self.major);
        s.append(".");
        append_decimal(&mut s, self.minor);
        if self.patch != 0 {
            s.append(".");
            append_decimal(&mut s, self.patch);
        }
        proof {
            reveal_strlit(".");
        }
        assert(s@ =~= release_id(self.parts()));
        s
    }
}

/// The game version an instance runs.
#[derive(Debug, Clone, Copy, PartialEq, Eq, Structural)]
pub enum MinecraftVersion {
    Unknown,
    Release(Version),
}

impl MinecraftVersion {
    /// The published id of this version; an unknown version has none.
    pub fn id(&self) -> (r: Option<String>)
        ensures
            match *self {
                MinecraftVersion::Unknown => r is None,
                MinecraftVersion::Release(v) => r matches Some(s) && s@ == release_id(v.parts()),
            },
    {
        match self {
            MinecraftVersion::Unknown => None,
            MinecraftVersion::Release(v) => Some(v.release_id()),
        }
    }
}

/// The server software an instance runs.
#[derive(Debug, Clone, Copy, PartialEq, Eq, Structural)]
pub enum MinecraftType {
    Unknown,
    Vanilla,
    Paper,
}

} // verus!
