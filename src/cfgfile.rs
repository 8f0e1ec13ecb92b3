//! The driver's text configuration files: `TAG=value` lines holding a MAC address
//! and calibration words.
use vstd::prelude::*;
use vstd::string::StringSliceAdditionalSpecFns;

verus! {

/// The MAC address used when the file holds none.
pub open spec fn default_mac() -> Seq<u8> {
    seq![0u8, 111u8, 111u8, 111u8, 111u8, 0u8]
}

/// Calibration word used when a tag is missing or malformed.
pub const DEFAULT_IQ: u32 = 0x0100_0000;

/// The configuration file: the MAC address.
pub struct RwnxConfFile {
    pub mac_addr: Vec<u8>,
}

/// The calibration file: IQ compensation words and the default path.
#[derive(Clone, Copy, Debug, PartialEq, Eq, Structural)]
pub struct RwnxKarstConf {
    pub tx_iq_comp_2_4g_path_0: u32,
    pub tx_iq_comp_2_4g_path_1: u32,
    pub rx_iq_comp_2_4g_path_0: u32,
    pub rx_iq_comp_2_4g_path_1: u32,
    pub tx_iq_comp_5g_path_0: u32,
    pub tx_iq_comp_5g_path_1: u32,
    pub rx_iq_comp_5g_path_0: u32,
    pub rx_iq_comp_5g_path_1: u32,
    pub default_path: u8,
}

/// The end of the line starting at `i`: the index of the next newline, or the end.
pub open spec fn line_end(d: Seq<u8>, i: int) -> int
    decreases d.len() - i,
{
    if i < 0 || i >= d.len() {
        d.len() as int
    } else if d[i] == 10u8 {
        i
    } else {
        line_end(d, i + 1)
    }
}

/// The value range `(start, end)` of the first line, from the line at `start` on,
/// that begins with `tag`.
pub open spec fn tag_from(d: Seq<u8>, tag: Seq<u8>, start: int) -> Option<(int, int)>
    decreases d.len() - start,
{
    if start < 0 || start >= d.len() {
        None
    } else {
        let e = line_end(d, start);
        if e - start >= tag.len() && d.subrange(start, start + tag.len()) == tag {
            Some((start + tag.len(), e))
        } else if start < e + 1 < d.len() {
            tag_from(d, tag, e + 1)
        } else {
            None
        }
    }
}

/// The end of a line always lies at or after its start and within the data.
pub proof fn lemma_line_end(d: Seq<u8>, i: int)
    requires
        0 <= i <= d.len(),
    ensures
        i <= line_end(d, i) <= d.len(),
    decreases d.len() - i,
{
    if i < d.len() && d[i] != 10u8 {
        lemma_line_end(d, i + 1);
    }
}

/// A value range found by `tag_from` lies within the data.
pub proof fn lemma_tag_range(d: Seq<u8>, tag: Seq<u8>, start: int)
    ensures
        tag_from(d, tag, start) matches Some((a, b)) ==> 0 <= a <= b <= d.len(),
    decreases d.len() - start,
{
    if !(start < 0 || start >= d.len()) {
        lemma_line_end(d, start);
        let e = line_end(d, start);
        if e - start >= tag.len() && d.subrange(start, start + tag.len()) == tag {
        } else if start < e + 1 < d.len() {
            lemma_tag_range(d, tag, e + 1);
        }
    }
}

/// The value of the first line of `d` that begins with `tag`: the rest of that line.
pub fn find_tag(d: &[u8], tag: &[u8]) -> (r: Option<Vec<u8>>)
    ensures
        match tag_from(d@, tag@, 0) {
            Some((s, e)) => r matches Some(v) && v@ == d@.subrange(s, e),
            None => r is None,
        },
{
    let mut line_start: usize = 0;
    while line_start < d.len()
        invariant
            line_start <= d@.len(),
            tag_from(d@, tag@, line_start as int) == tag_from(d@, tag@, 0),
        decreases d@.len() - line_start,
    {
        let mut curr = line_start;
        while curr < d.len() && d[curr] != 10u8
            invariant
                line_start <= curr <= d@.len(),
                line_end(d@, line_start as int) == line_end(d@, curr as int),
            decreases d@.len() - curr,
        {
            curr = curr + 1;
        }
        let ghost e = line_end(d@, line_start as int);
        assert(curr == e);
        if curr - line_start >= tag.len() {
            let mut k: usize = 0;
            while k < tag.len()
                invariant
                    k <= tag@.len(),
                    line_start + tag@.len() <= curr <= d@.len(),
                    d@.subrange(line_start as int, line_start + k) == tag@.take(k as int),
                ensures
                    k <= tag@.len(),
                    d@.subrange(line_start as int, line_start + k) == tag@.take(k as int),
                    k < tag@.len() ==> d@[line_start + k] != tag@[k as int],
                decreases tag@.len() - k,
            {
                if d[line_start + k] != tag[k] {
                    break;
                }
                assert(d@.subrange(line_start as int, line_start + k + 1) =~= d@.subrange(
                    line_start as int,
                    line_start + k,
                ).push(d@[line_start + k]));
                assert(tag@.take(k + 1) =~= tag@.take(k as int).push(tag@[k as int]));
                k = k + 1;
            }
            if k == tag.len() {
                assert(tag@.take(tag@.len() as int) =~= tag@);
                return Some(
                    crate::bus::slice_of(d, line_start + tag.len(), curr - (line_start + tag.len())),
                );
            } else {
                assert(d@.subrange(line_start as int, line_start + tag@.len())[k as int] != tag@[k as int]);
            }
        }
        if curr >= d.len() {
            return None;
        }
        line_start = curr + 1;
    }
    None
}

/// The value of a hex digit.
pub open spec fn nibble(b: u8) -> Option<u8> {
    if 48 <= b <= 57 {
        Some((b - 48) as u8)
    } else if 97 <= b <= 102 {
        Some((b - 97 + 10) as u8)
    } else if 65 <= b <= 70 {
        Some((b - 65 + 10) as u8)
    } else {
        None
    }
}

/// The value of a hex digit, if `b` is one.
pub fn hex_nibble(b: u8) -> (r: Option<u8>)
    ensures
        r == nibble(b),
        r matches Some(v) ==> v < 16,
{
    if b >= 48 && b <= 57 {
        Some(b - 48)
    } else if b >= 97 && b <= 102 {
        Some(b - 97 + 10)
    } else if b >= 65 && b <= 70 {
        Some(b - 65 + 10)
    } else {
        None
    }
}

/// The value of the first `k` hex digits of `s`, if all are hex digits.
pub open spec fn hex_prefix(s: Seq<u8>, k: int) -> Option<int>
    decreases k,
{
    if k <= 0 {
        Some(0)
    } else {
        match (hex_prefix(s, k - 1), nibble(s[k - 1])) {
            (Some(v), Some(n)) => Some(v * 16 + n),
            _ => None,
        }
    }
}

/// 16 to the power `k`, for `k` up to 8.
pub open spec fn pow16(k: int) -> int {
    if k <= 0 {
        1
    } else if k == 1 {
        16
    } else if k == 2 {
        256
    } else if k == 3 {
        4096
    } else if k == 4 {
        65536
    } else if k == 5 {
        1048576
    } else if k == 6 {
        16777216
    } else if k == 7 {
        268435456
    } else {
        4294967296
    }
}

/// The value of the first `k` hex digits (`k` up to 8) is below 16^k.
pub proof fn lemma_hex_prefix_bound(s: Seq<u8>, k: int)
    requires
        0 <= k <= 8,
    ensures
        hex_prefix(s, k) matches Some(v) ==> 0 <= v < pow16(k),
    decreases k,
{
    if k > 0 {
        lemma_hex_prefix_bound(s, k - 1);
        if let Some(v) = hex_prefix(s, k) {
            let v0 = hex_prefix(s, k - 1)->0;
            let n = nibble(s[k - 1])->0;
            let p = pow16(k - 1);
            assert(pow16(k) == 16 * p);
            assert(v0 * 16 + n < 16 * p) by (nonlinear_arith)
                requires
                    0 <= v0 < p,
                    0 <= n < 16,
            ;
        }
    }
}

/// The value of eight hex digits at the start of `s`; `None` when `s` is shorter or
/// one of them is not a hex digit.
pub fn parse_hex8(s: &[u8]) -> (r: Option<u32>)
    ensures
        s@.len() < 8 ==> r is None,
        s@.len() >= 8 ==> match hex_prefix(s@, 8) {
            Some(v) => r == Some(v as u32),
            None => r is None,
        },
{
    if s.len() < 8 {
        return None;
    }
    let mut v: u32 = 0;
    let mut i: usize = 0;
    while i < 8
        invariant
            i <= 8 <= s@.len(),
            hex_prefix(s@, i as int) == Some(v as int),
        decreases 8 - i,
    {
        proof {
            lemma_hex_prefix_bound(s@, i as int);
        }
        match hex_nibble(s[i]) {
            Some(n) => {
                v = v * 16 + n as u32;
            },
            None => {
                proof {
                    lemma_hex_prefix_none_stays(s@, i as int + 1, 8);
                }
                return None;
            },
        }
        i = i + 1;
    }
    Some(v)
}

/// Once a digit is not hex, no longer prefix has a value.
pub proof fn lemma_hex_prefix_none_stays(s: Seq<u8>, k: int, m: int)
    requires
        0 < k <= m,
        hex_prefix(s, k) is None,
    ensures
        hex_prefix(s, m) is None,
    decreases m - k,
{
    if k < m {
        lemma_hex_prefix_none_stays(s, k, m - 1);
    }
}

/// `p` in front of the parsed rest, if the rest parsed.
pub open spec fn prepend(p: Seq<u8>, o: Option<Seq<u8>>) -> Option<Seq<u8>> {
    match o {
        Some(r) => Some(p + r),
        None => None,
    }
}

/// The MAC bytes `k..6` parsed from `s` at `i`: two hex digits per byte, each pair
/// but the last optionally followed by a colon.
pub open spec fn mac_from(s: Seq<u8>, i: int, k: int) -> Option<Seq<u8>>
    decreases 6 - k,
{
    if k >= 6 {
        Some(Seq::empty())
    } else if i < 0 || i + 2 > s.len() {
        None
    } else {
        match (nibble(s[i]), nibble(s[i + 1])) {
            (Some(h), Some(l)) => {
                let i2 = i + 2;
                let i3 = if k + 1 < 6 && i2 < s.len() && s[i2] == 58u8 {
                    i2 + 1
                } else {
                    i2
                };
                prepend(seq![(h * 16 + l) as u8], mac_from(s, i3, k + 1))
            },
            _ => None,
        }
    }
}

/// Parses a MAC address written as six hex pairs, colons optional.
pub fn parse_mac_addr(s: &[u8]) -> (r: Option<Vec<u8>>)
    ensures
        match mac_from(s@, 0, 0) {
            Some(m) => r matches Some(v) && v@ == m,
            None => r is None,
        },
{
    let mut out: Vec<u8> = Vec::new();
    let mut i: usize = 0;
    let mut k: usize = 0;
    while k < 6
        invariant
            k <= 6,
            i <= s@.len(),
            out@.len() == k,
            mac_from(s@, 0, 0) == prepend(out@, mac_from(s@, i as int, k as int)),
        decreases 6 - k,
    {
        if s.len() - i < 2 {
            return None;
        }
        let h = hex_nibble(s[i]);
        let l = hex_nibble(s[i + 1]);
        match (h, l) {
            (Some(hv), Some(lv)) => {
                let b: u8 = hv * 16 + lv;
                let i2 = i + 2;
                let i3 = if k + 1 < 6 && i2 < s.len() && s[i2] == 58u8 {
                    i2 + 1
                } else {
                    i2
                };
                let ghost prev = out@;
                out.push(b);
                proof {
                    let rest = mac_from(s@, i3 as int, k + 1);
                    assert(mac_from(s@, i as int, k as int) == prepend(seq![b], rest));
                    match rest {
                        Some(r) => {
                            assert(prev + (seq![b] + r) =~= out@ + r);
                        },
                        None => {},
                    }
                }
                i = i3;
                k = k + 1;
            },
            _ => {
                return None;
            },
        }
    }
    assert(out@ + Seq::<u8>::empty() =~= out@);
    Some(out)
}

/// The MAC address a configuration file sets: the value of its `MAC_ADDR=` line
/// when that parses, else the default.
pub open spec fn conf_mac(d: Seq<u8>) -> Seq<u8> {
    match tag_from(d, "MAC_ADDR=".spec_bytes(), 0) {
        Some((a, b)) => match mac_from(d.subrange(a, b), 0, 0) {
            Some(m) => m,
            None => default_mac(),
        },
        None => default_mac(),
    }
}

/// Reads the MAC address of a configuration file into `config`.
pub fn parse_configfile(file_data: &[u8], config: &mut RwnxConfFile) -> (r: Result<(), i32>)
    ensures
        r is Ok,
        final(config).mac_addr@ == conf_mac(file_data@),
{
    let tag = "MAC_ADDR=".as_bytes();
    if let Some(value) = find_tag(file_data, tag) {
        if let Some(mac) = parse_mac_addr(value.as_slice()) {
            config.mac_addr = mac;
            return Ok(());
        }
    }
    let d: Vec<u8> = vec![0u8, 111u8, 111u8, 111u8, 111u8, 0u8];
    assert(d@ =~= default_mac());
    config.mac_addr = d;
    Ok(())
}

/// The word a calibration file sets for `tag`: the eight hex digits of its line when
/// they parse, else `default`.
pub open spec fn conf_word(d: Seq<u8>, tag: Seq<u8>, default: u32) -> u32 {
    match tag_from(d, tag, 0) {
        Some((a, b)) => {
            let v = d.subrange(a, b);
            if v.len() >= 8 {
                match hex_prefix(v, 8) {
                    Some(x) => x as u32,
                    None => default,
                }
            } else {
                default
            }
        },
        None => default,
    }
}

/// The word of `tag` in `file_data` (see `conf_word`).
pub fn parse_hex_tag(file_data: &[u8], tag: &[u8], default: u32) -> (r: u32)
    ensures
        r == conf_word(file_data@, tag@, default),
{
    match find_tag(file_data, tag) {
        Some(v) => match parse_hex8(v.as_slice()) {
            Some(x) => x,
            None => default,
        },
        None => default,
    }
}

/// The default path a calibration file sets: the hex digit starting its
/// `KARST_DEFAULT_PATH=` line (2 when that is not a hex digit); `current` when the
/// line is missing or empty.
pub open spec fn conf_path(d: Seq<u8>, current: u8) -> u8 {
    match tag_from(d, "KARST_DEFAULT_PATH=".spec_bytes(), 0) {
        Some((a, b)) => if b > a {
            match nibble(d[a]) {
                Some(n) => n,
                None => 2,
            }
        } else {
            current
        },
        None => current,
    }
}

/// Reads the calibration words and the default path of a calibration file into
/// `config`; a missing or malformed word takes `DEFAULT_IQ`.
pub fn parse_karst_configfile(file_data: &[u8], config: &mut RwnxKarstConf) -> (r: Result<(), i32>)
    ensures
        r is Ok,
        final(config).tx_iq_comp_2_4g_path_0 == conf_word(file_data@, "KARST_TX_IQ_COMP_2_4G_PATH_0=".spec_bytes(), DEFAULT_IQ),
        final(config).tx_iq_comp_2_4g_path_1 == conf_word(file_data@, "KARST_TX_IQ_COMP_2_4G_PATH_1=".spec_bytes(), DEFAULT_IQ),
        final(config).rx_iq_comp_2_4g_path_0 == conf_word(file_data@, "KARST_RX_IQ_COMP_2_4G_PATH_0=".spec_bytes(), DEFAULT_IQ),
        final(config).rx_iq_comp_2_4g_path_1 == conf_word(file_data@, "KARST_RX_IQ_COMP_2_4G_PATH_1=".spec_bytes(), DEFAULT_IQ),
        final(config).tx_iq_comp_5g_path_0 == conf_word(file_data@, "KARST_TX_IQ_COMP_5G_PATH_0=".spec_bytes(), DEFAULT_IQ),
        final(config).tx_iq_comp_5g_path_1 == conf_word(file_data@, "KARST_TX_IQ_COMP_5G_PATH_1=".spec_bytes(), DEFAULT_IQ),
        final(config).rx_iq_comp_5g_path_0 == conf_word(file_data@, "KARST_RX_IQ_COMP_5G_PATH_0=".spec_bytes(), DEFAULT_IQ),
        final(config).rx_iq_comp_5g_path_1 == conf_word(file_data@, "KARST_RX_IQ_COMP_5G_PATH_1=".spec_bytes(), DEFAULT_IQ),
        final(config).default_path == conf_path(file_data@, old(config).default_path),
{
    config.tx_iq_comp_2_4g_path_0 = parse_hex_tag(file_data, "KARST_TX_IQ_COMP_2_4G_PATH_0=".as_bytes(), DEFAULT_IQ);
    config.tx_iq_comp_2_4g_path_1 = parse_hex_tag(file_data, "KARST_TX_IQ_COMP_2_4G_PATH_1=".as_bytes(), DEFAULT_IQ);
    config.rx_iq_comp_2_4g_path_0 = parse_hex_tag(file_data, "KARST_RX_IQ_COMP_2_4G_PATH_0=".as_bytes(), DEFAULT_IQ);
    config.rx_iq_comp_2_4g_path_1 = parse_hex_tag(file_data, "KARST_RX_IQ_COMP_2_4G_PATH_1=".as_bytes(), DEFAULT_IQ);
    config.tx_iq_comp_5g_path_0 = parse_hex_tag(file_data, "KARST_TX_IQ_COMP_5G_PATH_0=".as_bytes(), DEFAULT_IQ);
    config.tx_iq_comp_5g_path_1 = parse_hex_tag(file_data, "KARST_TX_IQ_COMP_5G_PATH_1=".as_bytes(), DEFAULT_IQ);
    config.rx_iq_comp_5g_path_0 = parse_hex_tag(file_data, "KARST_RX_IQ_COMP_5G_PATH_0=".as_bytes(), DEFAULT_IQ);
    config.rx_iq_comp_5g_path_1 = parse_hex_tag(file_data, "KARST_RX_IQ_COMP_5G_PATH_1=".as_bytes(), DEFAULT_IQ);
    proof {
        lemma_tag_range(file_data@, "KARST_DEFAULT_PATH=".spec_bytes(), 0);
    }
    if let Some(v) = find_tag(file_data, "KARST_DEFAULT_PATH=".as_bytes()) {
        if v.len() > 0 {
            config.default_path = match hex_nibble(v[0]) {
                Some(n) => n,
                None => 2,
            };
        }
    }
    Ok(())
}

} // verus!
