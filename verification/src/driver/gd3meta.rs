use vstd::prelude::*;
use crate::driver::meta::{has_tag, spec_has_tag};

verus! {

/// Number of strings in a GD3 tag.
pub const GD3_FIELDS: usize = 10;

/// The bytes "Gd3 " that open a GD3 tag.
pub open spec fn spec_gd3_tag() -> Seq<u8> {
    seq![0x47u8, 0x64u8, 0x33u8, 0x20u8]
}

/// The characters that a sequence of UTF-16 code units encodes, or `None`
/// where it holds an unpaired surrogate.
pub open spec fn spec_utf16_decode(u: Seq<u16>) -> Option<Seq<char>>
    decreases u.len(),
{
    if u.len() == 0 {
        Some(Seq::empty())
    } else if u[0] < 0xd800 || u[0] > 0xdfff {
        match spec_utf16_decode(u.drop_first()) {
            Some(rest) => Some(seq![(u[0] as u32) as char] + rest),
            None => None,
        }
    } else if u[0] <= 0xdbff && u.len() >= 2 && 0xdc00 <= u[1] <= 0xdfff {
        match spec_utf16_decode(u.subrange(2, u.len() as int)) {
            Some(rest) => Some(seq![((0x10000 + (u[0] - 0xd800) * 0x400 + (u[1] - 0xdc00)) as u32) as char] + rest),
            None => None,
        }
    } else {
        None
    }
}

/// Decode UTF-16 with std's `String::from_utf16`, which (as its
/// documentation says) decodes the units into a `String` and fails when
/// they contain invalid data. Claims that the result is the decoding of
/// `spec_utf16_decode`.
#[verifier::external_body]
fn string_from_utf16(units: &[u16]) -> (r: Option<String>)
    ensures
        match r {
            Some(s) => spec_utf16_decode(units@) == Some(s@),
            None => spec_utf16_decode(units@) is None,
        },
{
    String::from_utf16(units).ok()
}

/// The little-endian code units from `p` up to a null unit, and the
/// position after it; `None` where the bytes end first.
pub open spec fn spec_utf16_units(s: Seq<u8>, p: int) -> Option<(Seq<u16>, int)>
    decreases s.len() - p,
{
    if p < 0 || p + 2 > s.len() {
        None
    } else if s[p] == 0 && s[p + 1] == 0 {
        Some((Seq::empty(), p + 2))
    } else {
        match spec_utf16_units(s, p + 2) {
            Some((u, e)) => Some((seq![(s[p] as int + s[p + 1] as int * 0x100) as u16] + u, e)),
            None => None,
        }
    }
}

/// A null-terminated UTF-16 string at `p` and the position after it; the
/// string is empty where the units are not valid UTF-16.
pub open spec fn spec_utf16_string(s: Seq<u8>, p: int) -> Option<(Seq<char>, int)> {
    match spec_utf16_units(s, p) {
        Some((u, e)) => Some((
            match spec_utf16_decode(u) {
                Some(c) => c,
                None => Seq::empty(),
            },
            e,
        )),
        None => None,
    }
}

/// `n` consecutive null-terminated UTF-16 strings from `p`.
pub open spec fn spec_utf16_strings(s: Seq<u8>, p: int, n: nat) -> Option<(Seq<Seq<char>>, int)>
    decreases n,
{
    if n == 0 {
        Some((Seq::empty(), p))
    } else {
        match spec_utf16_string(s, p) {
            Some((f, e)) => match spec_utf16_strings(s, e, (n - 1) as nat) {
                Some((fs, e2)) => Some((seq![f] + fs, e2)),
                None => None,
            },
            None => None,
        }
    }
}

/// A GD3 tag: "Gd3 ", a version and a length (eight bytes, unread), then ten
/// null-terminated UTF-16LE strings. The result holds the strings and the
/// number of bytes read.
pub open spec fn spec_parse_gd3(s: Seq<u8>) -> Option<(Seq<Seq<char>>, int)> {
    if s.len() >= 12 && spec_has_tag(s, spec_gd3_tag()) {
        spec_utf16_strings(s, 12, GD3_FIELDS as nat)
    } else {
        None
    }
}

/// The GD3 metadata of a track.
#[derive(Debug)]
pub struct Gd3 {
    pub track_name: String,
    pub track_name_j: String,
    pub game_name: String,
    pub game_name_j: String,
    pub system_name: String,
    pub system_name_j: String,
    pub track_author: String,
    pub track_author_j: String,
    pub date: String,
    pub converted: String,
}

impl View for Gd3 {
    type V = Seq<Seq<char>>;

    /// The ten strings in the order of the tag.
    open spec fn view(&self) -> Seq<Seq<char>> {
        seq![
            self.track_name@, self.track_name_j@, self.game_name@, self.game_name_j@,
            self.system_name@, self.system_name_j@, self.track_author@, self.track_author_j@,
            self.date@, self.converted@,
        ]
    }
}

impl Default for Gd3 {
    /// Blank metadata: ten empty strings.
    fn default() -> (r: Self)
        ensures
            r@ == Seq::new(GD3_FIELDS as nat, |i: int| Seq::<char>::empty()),
    {
        let r = Gd3 {
            track_name: String::new(),
            track_name_j: String::new(),
            game_name: String::new(),
            game_name_j: String::new(),
            system_name: String::new(),
            system_name_j: String::new(),
            track_author: String::new(),
            track_author_j: String::new(),
            date: String::new(),
            converted: String::new(),
        };
        assert(r@ =~= Seq::new(GD3_FIELDS as nat, |i: int| Seq::<char>::empty()));
        r
    }
}

impl Gd3 {
    /// Replace string `k` (in tag order).
    fn set_field(&mut self, k: usize, value: String)
        requires
            k < GD3_FIELDS,
        ensures
            final(self)@ == old(self)@.update(k as int, value@),
    {
        if k == 0 {
            self.track_name = value;
        } else if k == 1 {
            self.track_name_j = value;
        } else if k == 2 {
            self.game_name = value;
        } else if k == 3 {
            self.game_name_j = value;
        } else if k == 4 {
            self.system_name = value;
        } else if k == 5 {
            self.system_name_j = value;
        } else if k == 6 {
            self.track_author = value;
        } else if k == 7 {
            self.track_author_j = value;
        } else if k == 8 {
            self.date = value;
        } else {
            self.converted = value;
        }
        assert(self@ =~= old(self)@.update(k as int, value@));
    }
}

/// Read a null-terminated UTF-16LE string at `p`; returns it (empty where
/// the units are not valid UTF-16) and the position after the null unit,
/// or `None` where the bytes end first.
pub fn parse_utf16_until_null(i: &[u8], p: usize) -> (r: Option<(String, usize)>)
    ensures
        match r {
            Some((st, e)) => spec_utf16_string(i@, p as int) == Some((st@, e as int)),
            None => spec_utf16_string(i@, p as int) is None,
        },
{
    let mut units: Vec<u16> = Vec::new();
    let mut q: usize = p;
    loop
        invariant
            p <= q,
            (q - p) % 2 == 0,
            spec_utf16_units(i@, p as int) == match spec_utf16_units(i@, q as int) {
                Some((u, e)) => Some((units@ + u, e)),
                None => None,
            },
        decreases i@.len() - q,
    {
        if q >= i.len() || i.len() - q < 2 {
            return None;
        }
        if i[q] == 0 && i[q + 1] == 0 {
            assert(units@ + Seq::<u16>::empty() =~= units@);
            let string = match string_from_utf16(units.as_slice()) {
                Some(st) => st,
                None => String::new(),
            };
            return Some((string, q + 2));
        }
        let unit: u16 = i[q] as u16 + i[q + 1] as u16 * 0x100;
        proof {
            let next = spec_utf16_units(i@, q as int + 2);
            match next {
                Some((u, e)) => {
                    assert(units@.push(unit) + u =~= units@ + (seq![unit] + u));
                }
                None => {}
            }
        }
        units.push(unit);
        q = q + 2;
    }
}

/// Parse a GD3 tag; returns the metadata and the number of bytes read, or
/// `None` where the tag is missing or a string runs past the end.
pub fn parse_vgm_gd3(i: &[u8]) -> (r: Option<(Gd3, usize)>)
    ensures
        match r {
            Some((g, n)) => spec_parse_gd3(i@) == Some((g@, n as int)),
            None => spec_parse_gd3(i@) is None,
        },
{
    if i.len() < 12 || !has_tag(i, &[0x47u8, 0x64u8, 0x33u8, 0x20u8]) {
        return None;
    }
    let mut g = Gd3::default();
    let mut k: usize = 0;
    let mut q: usize = 12;
    while k < GD3_FIELDS
        invariant
            k <= GD3_FIELDS,
            i@.len() >= 12,
            spec_has_tag(i@, spec_gd3_tag()),
            spec_parse_gd3(i@) == match spec_utf16_strings(i@, q as int, (GD3_FIELDS - k) as nat) {
                Some((fs, e)) => Some((g@.subrange(0, k as int) + fs, e)),
                None => None,
            },
            g@.len() == GD3_FIELDS,
        decreases GD3_FIELDS - k,
    {
        match parse_utf16_until_null(i, q) {
            Some((st, e)) => {
                proof {
                    let rest = spec_utf16_strings(i@, e as int, (GD3_FIELDS - k - 1) as nat);
                    match rest {
                        Some((fs, e2)) => {
                            assert(g@.update(k as int, st@).subrange(0, k + 1) + fs
                                =~= g@.subrange(0, k as int) + (seq![st@] + fs));
                        }
                        None => {}
                    }
                }
                g.set_field(k, st);
                q = e;
            }
            None => {
                return None;
            }
        }
        k = k + 1;
    }
    assert(g@.subrange(0, GD3_FIELDS as int) + Seq::<Seq<char>>::empty() =~= g@);
    Some((g, q))
}

/// UTF-16 units without surrogates decode to one character each.
pub proof fn lemma_utf16_bmp(u: Seq<u16>)
    requires
        forall|i: int| 0 <= i < u.len() ==> (#[trigger] u[i]) < 0xd800 || u[i] > 0xdfff,
    ensures
        spec_utf16_decode(u) is Some,
        spec_utf16_decode(u)->0.len() == u.len(),
    decreases u.len(),
{
    if u.len() > 0 {
        assert forall|i: int| 0 <= i < u.drop_first().len() implies (#[trigger] u.drop_first()[i]) < 0xd800 || u.drop_first()[i] > 0xdfff by {
            assert(u.drop_first()[i] == u[i + 1]);
        }
        lemma_utf16_bmp(u.drop_first());
    }
}

/// A null-terminated UTF-16LE string read from `p` ends just after the
/// first pair of zero bytes at an even distance from `p`: its units are the
/// little-endian byte pairs before it, none of them zero.
pub proof fn lemma_utf16_units_layout(s: Seq<u8>, p: int)
    requires
        0 <= p,
    ensures
        match spec_utf16_units(s, p) {
            Some((u, e)) => {
                &&& e == p + 2 * u.len() + 2
                &&& e <= s.len()
                &&& s[e - 2] == 0 && s[e - 1] == 0
                &&& forall|k: int| 0 <= k < u.len() ==> #[trigger] u[k] == s[p + 2 * k] + s[p + 2 * k + 1] * 0x100
                    && !(s[p + 2 * k] == 0 && s[p + 2 * k + 1] == 0)
            },
            None => forall|k: int| 0 <= k && p + 2 * k + 2 <= s.len() ==> !(s[p + 2 * k] == 0 && #[trigger] s[p + 2 * k + 1] == 0),
        },
    decreases s.len() - p,
{
    if p + 2 > s.len() {
        assert(spec_utf16_units(s, p) is None);
    } else if s[p] == 0 && s[p + 1] == 0 {
        assert(spec_utf16_units(s, p) == Some((Seq::<u16>::empty(), p + 2)));
    } else {
        lemma_utf16_units_layout(s, p + 2);
        match spec_utf16_units(s, p + 2) {
            Some((u, e)) => {
                let w = seq![(s[p] as int + s[p + 1] as int * 0x100) as u16] + u;
                assert(spec_utf16_units(s, p) == Some((w, e)));
                assert forall|k: int| 0 <= k < w.len() implies #[trigger] w[k] == s[p + 2 * k] + s[p + 2 * k + 1] * 0x100
                    && !(s[p + 2 * k] == 0 && s[p + 2 * k + 1] == 0) by {
                    if k > 0 {
                        assert(w[k] == u[k - 1]);
                        assert(p + 2 + 2 * (k - 1) == p + 2 * k);
                    }
                }
                assert(e == p + 2 * w.len() + 2);
            },
            None => {
                assert(spec_utf16_units(s, p) is None);
                assert forall|k: int| 0 <= k && p + 2 * k + 2 <= s.len() implies !(s[p + 2 * k] == 0 && #[trigger] s[p + 2 * k + 1] == 0) by {
                    if k > 0 {
                        assert(p + 2 + 2 * (k - 1) + 2 <= s.len());
                        assert(s[p + 2 + 2 * (k - 1) + 1] == s[p + 2 * k + 1]);
                    }
                }
            },
        }
    }
}

/// A GD3 tag parses only where it opens with the bytes "Gd3 "; its ten
/// strings are then read one after another from byte 12, past the version
/// and length words.
pub proof fn lemma_gd3_layout(s: Seq<u8>)
    ensures
        spec_parse_gd3(s) is Some ==> s[0] == 0x47 && s[1] == 0x64 && s[2] == 0x33 && s[3] == 0x20,
        s.len() >= 12 && s[0] == 0x47 && s[1] == 0x64 && s[2] == 0x33 && s[3] == 0x20
            ==> spec_parse_gd3(s) == spec_utf16_strings(s, 12, 10),
{
    if s.len() >= 12 && s[0] == 0x47 && s[1] == 0x64 && s[2] == 0x33 && s[3] == 0x20 {
        assert(s.subrange(0, 4) =~= spec_gd3_tag());
    }
    if spec_parse_gd3(s) is Some {
        assert(s.subrange(0, 4)[0] == s[0]);
        assert(s.subrange(0, 4)[1] == s[1]);
        assert(s.subrange(0, 4)[2] == s[2]);
        assert(s.subrange(0, 4)[3] == s[3]);
    }
}

} // verus!
