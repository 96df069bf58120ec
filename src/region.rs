use vstd::prelude::*;

verus! {

/// The regions that the provider serves.
#[derive(Debug, PartialEq, Eq, Structural, Clone, Copy)]
pub enum Region {
    Tyo1,
    Tyo2,
    Syn1,
    Sjc1,
}

impl Region {
    /// The canonical lowercase code of the region, as used in host names.
    pub open spec fn code(self) -> Seq<char> {
        match self {
            Region::Tyo1 => seq!['t', 'y', 'o', '1'],
            Region::Tyo2 => seq!['t', 'y', 'o', '2'],
            Region::Syn1 => seq!['s', 'y', 'n', '1'],
            Region::Sjc1 => seq!['s', 'j', 'c', '1'],
        }
    }

    /// The region's code, the host name fragment of its endpoints.
    pub fn to_url(&self) -> (r: &'static str)
        ensures
            r@ == self.code(),
    {
        match *self {
            Region::Tyo1 => {
                proof {
                    reveal_strlit("tyo1");
                }
                "tyo1"
            },
            Region::Tyo2 => {
                proof {
                    reveal_strlit("tyo2");
                }
                "tyo2"
            },
            Region::Syn1 => {
                proof {
                    reveal_strlit("syn1");
                }
                "syn1"
            },
            Region::Sjc1 => {
                proof {
                    reveal_strlit("sjc1");
                }
                "sjc1"
            },
        }
    }

    /// Parses a region code, ignoring ASCII case.
    pub fn from_str(s: &str) -> (r: Result<Region, &'static str>)
        ensures
            parse_region(s@) matches Some(g) ==> r == Ok::<Region, &'static str>(g),
            parse_region(s@) is None ==> (r matches Err(e) && e@ == "Couldn't parse region"@),
    {
        if s.is_ascii() {
            let b = s.as_bytes();
            proof {
                broadcast use vstd::string::is_ascii_spec_bytes;
                assert(b@ =~= Seq::new(s@.len(), |i| s@[i] as u8));
                assert forall|i: int| 0 <= i < s@.len() implies (#[trigger] s@[i]) as int == b@[i] as int by {
                    assert('\0' <= s@[i] <= '\u{7f}');
                }
            }
            let all = [Region::Tyo1, Region::Tyo2, Region::Syn1, Region::Sjc1];
            let mut k: usize = 0;
            while k < 4
                invariant
                    0 <= k <= 4,
                    all@ == seq![Region::Tyo1, Region::Tyo2, Region::Syn1, Region::Sjc1],
                    b@.len() == s@.len(),
                    forall|i: int| 0 <= i < s@.len() ==> (#[trigger] s@[i]) as int == b@[i] as int,
                    forall|j: int| 0 <= j < k ==> !matches_code(s@, (#[trigger] all@[j]).code()),
                decreases 4 - k,
            {
                let g = all[k];
                if code_matches(b, g) {
                    proof {
                        lemma_codes_distinct(s@);
                    }
                    return Ok(g);
                }
                k = k + 1;
            }
        } else {
            proof {
                lemma_non_ascii_fails(s@);
            }
        }
        proof {
            reveal_strlit("Couldn't parse region");
        }
        Err("Couldn't parse region")
    }
}

/// The ASCII lower case of a character's code point; other characters are kept.
pub open spec fn lower(c: char) -> int {
    let n = c as int;
    if 65 <= n <= 90 {
        n + 32
    } else {
        n
    }
}

/// `s` equals the lowercase `code` when ASCII case is ignored.
pub open spec fn matches_code(s: Seq<char>, code: Seq<char>) -> bool {
    &&& s.len() == code.len()
    &&& forall|i: int| 0 <= i < s.len() ==> lower(#[trigger] s[i]) == code[i] as int
}

/// The region that a string names, if any.
pub open spec fn parse_region(s: Seq<char>) -> Option<Region> {
    if matches_code(s, Region::Tyo1.code()) {
        Some(Region::Tyo1)
    } else if matches_code(s, Region::Tyo2.code()) {
        Some(Region::Tyo2)
    } else if matches_code(s, Region::Syn1.code()) {
        Some(Region::Syn1)
    } else if matches_code(s, Region::Sjc1.code()) {
        Some(Region::Sjc1)
    } else {
        None
    }
}

/// Parsing ignores ASCII case: two strings that agree once lowered name the
/// same region, or both name none.
pub proof fn lemma_parse_ignores_case(s: Seq<char>, t: Seq<char>)
    requires
        s.len() == t.len(),
        forall|i: int| 0 <= i < s.len() ==> lower(#[trigger] s[i]) == lower(t[i]),
    ensures
        parse_region(s) == parse_region(t),
{
    assert forall|code: Seq<char>| matches_code(s, code) <==> matches_code(t, code) by {
        if matches_code(s, code) {
            assert forall|i: int| 0 <= i < t.len() implies lower(#[trigger] t[i]) == code[i] as int by {
                assert(lower(s[i]) == lower(t[i]));
            }
        }
        if matches_code(t, code) {
            assert forall|i: int| 0 <= i < s.len() implies lower(#[trigger] s[i]) == code[i] as int by {
                assert(lower(s[i]) == lower(t[i]));
            }
        }
    }
}

/// A string names region `g` exactly when it spells `g`'s code up to ASCII
/// case; in particular `g`'s own code names `g`.
pub proof fn lemma_parse_names_code(s: Seq<char>, g: Region)
    ensures
        parse_region(s) == Some(g) <==> matches_code(s, g.code()),
        parse_region(g.code()) == Some(g),
{
    lemma_codes_distinct(s);
    let c = g.code();
    assert forall|i: int| 0 <= i < c.len() implies lower(#[trigger] c[i]) == c[i] as int by {
        if i == 0 {
        } else if i == 1 {
        } else if i == 2 {
        } else {
        }
    }
    lemma_codes_distinct(c);
}

/// The bytes of a region's code.
fn code_bytes(g: Region) -> (r: [u8; 4])
    ensures
        forall|i: int| 0 <= i < 4 ==> r@[i] as int == (#[trigger] g.code()[i]) as int,
        g.code().len() == 4,
{
    match g {
        Region::Tyo1 => [116, 121, 111, 49],
        Region::Tyo2 => [116, 121, 111, 50],
        Region::Syn1 => [115, 121, 110, 49],
        Region::Sjc1 => [115, 106, 99, 49],
    }
}

/// Whether ASCII bytes spell a region's code, ignoring case.
fn code_matches(b: &[u8], g: Region) -> (r: bool)
    ensures
        forall|s: Seq<char>|
            s.len() == b@.len() && (forall|i: int| 0 <= i < s.len() ==> (#[trigger] s[i]) as int
                == b@[i] as int) ==> (r == matches_code(s, g.code())),
{
    if b.len() != 4 {
        return false;
    }
    let code = code_bytes(g);
    let mut i: usize = 0;
    while i < 4
        invariant
            0 <= i <= 4,
            b@.len() == 4,
            g.code().len() == 4,
            forall|j: int| 0 <= j < 4 ==> code@[j] as int == (#[trigger] g.code()[j]) as int,
            forall|j: int| 0 <= j < i ==> lower_byte(#[trigger] b@[j]) == code@[j],
        decreases 4 - i,
    {
        let c = b[i];
        let l: u8 = if 65 <= c && c <= 90 { c + 32 } else { c };
        if l != code[i] {
            assert forall|s: Seq<char>|
                s.len() == b@.len() && (forall|k: int| 0 <= k < s.len() ==> (#[trigger] s[k]) as int
                    == b@[k] as int) implies !matches_code(s, g.code()) by {
                assert(s[i as int] as int == b@[i as int] as int);
            }
            return false;
        }
        i = i + 1;
    }
    assert forall|s: Seq<char>|
        s.len() == b@.len() && (forall|k: int| 0 <= k < s.len() ==> (#[trigger] s[k]) as int
            == b@[k] as int) implies matches_code(s, g.code()) by {
        assert forall|k: int| 0 <= k < s.len() implies lower(#[trigger] s[k]) == g.code()[k] as int by {
            assert(s[k] as int == b@[k] as int);
            assert(lower_byte(b@[k]) == code@[k]);
            assert(code@[k] as int == g.code()[k] as int);
        }
    }
    true
}

spec fn lower_byte(c: u8) -> u8 {
    if 65 <= c <= 90 {
        (c + 32) as u8
    } else {
        c
    }
}

proof fn lemma_codes_distinct(s: Seq<char>)
    ensures
        matches_code(s, Region::Tyo1.code()) ==> parse_region(s) == Some(Region::Tyo1),
        matches_code(s, Region::Tyo2.code()) ==> parse_region(s) == Some(Region::Tyo2),
        matches_code(s, Region::Syn1.code()) ==> parse_region(s) == Some(Region::Syn1),
        matches_code(s, Region::Sjc1.code()) ==> parse_region(s) == Some(Region::Sjc1),
{
    if matches_code(s, Region::Tyo1.code()) {
        assert(lower(s[0]) == 't' as int && lower(s[3]) == '1' as int);
    }
    if matches_code(s, Region::Tyo2.code()) {
        assert(lower(s[0]) == 't' as int && lower(s[3]) == '2' as int);
    }
    if matches_code(s, Region::Syn1.code()) {
        assert(lower(s[0]) == 's' as int && lower(s[1]) == 'y' as int);
    }
    if matches_code(s, Region::Sjc1.code()) {
        assert(lower(s[0]) == 's' as int && lower(s[1]) == 'j' as int);
    }
}

proof fn lemma_non_ascii_fails(s: Seq<char>)
    requires
        !vstd::utf8::is_ascii_chars(s),
    ensures
        parse_region(s) is None,
{
    if parse_region(s) is Some {
        let g = parse_region(s)->Some_0;
        assert forall|i: int| 0 <= i < s.len() implies '\0' <= #[trigger] s[i] <= '\u{7f}' by {
            assert(lower(s[i]) == g.code()[i] as int);
            if i == 0 {
            } else if i == 1 {
            } else if i == 2 {
            } else {
            }
            assert(0 <= s[i] as int <= 127);
        }
    }
}

} // verus!
