//! The color scheme: which hex color paints each inferred cell type, the
//! header color, and the pager's scroll step sizes.

use vstd::prelude::*;

use crate::infer::DataType;

verus! {

use vstd::string::{StrSliceExecFns, StringExecFns};
use crate::text::chars_of;

type HexColor = String;

/// A decoded color: one byte per channel.
#[derive(Clone, Copy, Debug, PartialEq, Eq, Structural)]
pub struct Rgb {
    pub r: u8,
    pub g: u8,
    pub b: u8,
}

/// The hex colors for the six inferred cell types.
#[derive(Debug)]
pub struct DataTypeColors {
    pub text: HexColor,
    pub date: HexColor,
    pub float_number: HexColor,
    pub int_number: HexColor,
    pub boolean: HexColor,
    pub empty: HexColor,
}

/// Scroll step sizes for the fine and the coarse line-scroll keys.
#[derive(Clone, Copy, Debug, PartialEq, Eq, Structural)]
pub struct PagerConfig {
    pub scroll_single_line: usize,
    pub scroll_multi_line: usize,
}

/// A full color scheme: per-type cell colors, the header color, and an
/// optional pager configuration.
#[derive(Debug)]
pub struct ColorScheme {
    pub data_types: DataTypeColors,
    pub header: HexColor,
    pub pager: Option<PagerConfig>,
}

/// Whether `c` is an ASCII hexadecimal digit.
pub open spec fn spec_hex_digit(c: char) -> bool {
    ||| '0' as int <= c as int <= '9' as int
    ||| 'a' as int <= c as int <= 'f' as int
    ||| 'A' as int <= c as int <= 'F' as int
}

/// The value of an ASCII hexadecimal digit, 0 for any other character.
pub open spec fn spec_hex_val(c: char) -> int {
    if '0' as int <= c as int <= '9' as int {
        c as int - '0' as int
    } else if 'a' as int <= c as int <= 'f' as int {
        10 + c as int - 'a' as int
    } else if 'A' as int <= c as int <= 'F' as int {
        10 + c as int - 'A' as int
    } else {
        0
    }
}

/// The number of leading `#` characters of `s`.
pub open spec fn spec_hash_prefix_len(s: Seq<char>) -> int
    decreases s.len(),
{
    if s.len() > 0 && s[0] == '#' {
        1 + spec_hash_prefix_len(s.drop_first())
    } else {
        0
    }
}

/// `s` with every leading `#` removed.
pub open spec fn spec_strip_hash(s: Seq<char>) -> Seq<char> {
    s.skip(spec_hash_prefix_len(s))
}

/// The value of the two hex digits of `s` at `i` and `i + 1`; 0 when they are
/// missing or either is no hex digit.
pub open spec fn spec_hex_pair(s: Seq<char>, i: int) -> int {
    if i + 2 <= s.len() && spec_hex_digit(s[i]) && spec_hex_digit(s[i + 1]) {
        16 * spec_hex_val(s[i]) + spec_hex_val(s[i + 1])
    } else {
        0
    }
}

/// The color written as `#RRGGBB`: strip the leading hashes and decode three
/// two-digit components; a malformed component decodes to 0.
pub open spec fn spec_hex_to_rgb(s: Seq<char>) -> Rgb {
    let t = spec_strip_hash(s);
    Rgb {
        r: spec_hex_pair(t, 0) as u8,
        g: spec_hex_pair(t, 2) as u8,
        b: spec_hex_pair(t, 4) as u8,
    }
}

/// The hash prefix of `s` has the length of its longest run of leading `#`
/// characters.
proof fn lemma_hash_prefix_len(s: Seq<char>, k: int)
    requires
        0 <= k <= s.len(),
        forall|j: int| 0 <= j < k ==> s[j] == '#',
        k == s.len() || s[k] != '#',
    ensures
        spec_hash_prefix_len(s) == k,
    decreases s.len(),
{
    if s.len() > 0 && s[0] == '#' {
        assert(k >= 1);
        lemma_hash_prefix_len(s.drop_first(), k - 1);
    }
}

/// Whether `c` is an ASCII hexadecimal digit.
fn hex_digit(c: char) -> (b: bool)
    ensures
        b == spec_hex_digit(c),
{
    let u = c as u32;
    ('0' as u32 <= u && u <= '9' as u32) || ('a' as u32 <= u && u <= 'f' as u32) || ('A' as u32
        <= u && u <= 'F' as u32)
}

/// The value of an ASCII hexadecimal digit, 0 for any other character.
fn hex_val(c: char) -> (v: u8)
    ensures
        v as int == spec_hex_val(c),
        v < 16,
{
    let u = c as u32;
    if '0' as u32 <= u && u <= '9' as u32 {
        (u - '0' as u32) as u8
    } else if 'a' as u32 <= u && u <= 'f' as u32 {
        (10 + u - 'a' as u32) as u8
    } else if 'A' as u32 <= u && u <= 'F' as u32 {
        (10 + u - 'A' as u32) as u8
    } else {
        0
    }
}

impl ColorScheme {
    /// The hex color of one cell type.
    pub open spec fn spec_cell_hex(self, ty: DataType) -> Seq<char> {
        match ty {
            DataType::IntNumber => self.data_types.int_number@,
            DataType::FloatNumber => self.data_types.float_number@,
            DataType::Boolean => self.data_types.boolean@,
            DataType::Date => self.data_types.date@,
            DataType::Empty => self.data_types.empty@,
            DataType::Text => self.data_types.text@,
        }
    }

    /// Decode a `#RRGGBB` hex string into its three channels; leading hashes
    /// are stripped first, and a malformed component decodes to 0.
    pub fn hex_to_color(hex: &str) -> (c: Rgb)
        ensures
            c == spec_hex_to_rgb(hex@),
    {
        let v = chars_of(hex);
        let mut i: usize = 0;
        while i < v.len() && v[i] == '#'
            invariant
                i <= v@.len(),
                forall|j: int| 0 <= j < i ==> v@[j] == '#',
            decreases v@.len() - i,
        {
            i = i + 1;
        }
        proof {
            lemma_hash_prefix_len(v@, i as int);
        }
        let n = v.len();
        let r = hex_pair_from(&v, i, 0);
        let g = hex_pair_from(&v, i, 2);
        let b = hex_pair_from(&v, i, 4);
        Rgb { r, g, b }
    }

    /// The color painted on a cell of type `ty`.
    pub fn cell_color(&self, ty: &DataType) -> (c: Rgb)
        ensures
            c == spec_hex_to_rgb(self.spec_cell_hex(*ty)),
    {
        let hex: &HexColor = match ty {
            DataType::IntNumber => &self.data_types.int_number,
            DataType::FloatNumber => &self.data_types.float_number,
            DataType::Boolean => &self.data_types.boolean,
            DataType::Date => &self.data_types.date,
            DataType::Empty => &self.data_types.empty,
            DataType::Text => &self.data_types.text,
        };
        Self::hex_to_color(hex.as_str())
    }

    /// The color painted on the header row.
    pub fn header_color(&self) -> (c: Rgb)
        ensures
            c == spec_hex_to_rgb(self.header@),
    {
        Self::hex_to_color(self.header.as_str())
    }
}

/// The hex pair at offset `off` of the tail of `v` that starts at `start`.
fn hex_pair_from(v: &Vec<char>, start: usize, off: usize) -> (r: u8)
    requires
        start <= v@.len(),
        off <= 4,
    ensures
        r as int == spec_hex_pair(v@.skip(start as int), off as int),
{
    let n = v.len();
    if n - start > off {
        let i = start + off;
        if i < n && i + 1 < n {
            let hi = v[i];
            let lo = v[i + 1];
            proof {
                assert(v@.skip(start as int)[off as int] == v@[start + off]);
                assert(v@.skip(start as int)[off + 1] == v@[start + off + 1]);
            }
            if hex_digit(hi) && hex_digit(lo) {
                16 * hex_val(hi) + hex_val(lo)
            } else {
                0
            }
        } else {
            0
        }
    } else {
        0
    }
}

impl Default for ColorScheme {
    /// The built-in scheme, used when no configuration file provides one.
    fn default() -> (r: Self)
        ensures
            r.data_types.text@ == "#BACEDF"@,
            r.data_types.date@ == "#FAB387"@,
            r.data_types.float_number@ == "#89B4FA"@,
            r.data_types.int_number@ == "#A6E3A1"@,
            r.data_types.boolean@ == "#F9E2AF"@,
            r.data_types.empty@ == "#585B70"@,
            r.header@ == "#CBB6F7"@,
            (r.pager == Some(
                PagerConfig { scroll_single_line: 1, scroll_multi_line: 10 },
            )),
    {
        ColorScheme {
            data_types: DataTypeColors {
                text: "#BACEDF".to_owned(),
                date: "#FAB387".to_owned(),
                float_number: "#89B4FA".to_owned(),
                int_number: "#A6E3A1".to_owned(),
                boolean: "#F9E2AF".to_owned(),
                empty: "#585B70".to_owned(),
            },
            header: "#CBB6F7".to_owned(),
            pager: Some(
                PagerConfig { scroll_single_line: 1, scroll_multi_line: 10 },
            ),
        }
    }
}

/// What a configuration path expands to: a leading `~/` is replaced by the
/// home directory and a slash when one is known; any other path, or a missing
/// home, leaves the path as it is.
pub open spec fn spec_expand_home(path: Seq<char>, home: Option<Seq<char>>) -> Seq<char> {
    match home {
        Some(h) => if path.len() >= 2 && path[0] == '~' && path[1] == '/' {
            h + "/"@ + path.skip(2)
        } else {
            path
        },
        None => path,
    }
}

/// Expand a leading `~/` of a configuration path against the home directory,
/// when one is given.
pub fn expand_home(path: &str, home: Option<&str>) -> (r: String)
    ensures
        (match home {
            Some(h) => r@ == spec_expand_home(path@, Some(h@)),
            None => r@ == path@,
        }),
{
    let n = path.unicode_len();
    if n >= 2 && path.get_char(0) == '~' && path.get_char(1) == '/' {
        if let Some(h) = home {
            let rest = path.substring_char(2, n);
            proof {
                assert(path@.subrange(2, n as int) =~= path@.skip(2));
            }
            return String::from_str(h).concat("/").concat(rest);
        }
    }
    String::from_str(path)
}

/// The colors painted on one record of cells: each cell's type is inferred
/// and looked up in the scheme.
pub fn row_colors(
    scheme: &ColorScheme,
    patterns: &crate::infer::DatePatterns,
    record: &Vec<String>,
) -> (out: Vec<Rgb>)
    requires
        patterns.wf(),
    ensures
        out@.len() == record@.len(),
        forall|i: int|
            0 <= i < record@.len() ==> #[trigger] out@[i] == spec_hex_to_rgb(
                scheme.spec_cell_hex(crate::infer::spec_detect(record@[i]@)),
            ),
{
    let mut out: Vec<Rgb> = Vec::new();
    let mut i: usize = 0;
    while i < record.len()
        invariant
            i <= record@.len(),
            patterns.wf(),
            out@.len() == i,
            forall|j: int|
                0 <= j < i ==> #[trigger] out@[j] == spec_hex_to_rgb(
                    scheme.spec_cell_hex(crate::infer::spec_detect(record@[j]@)),
                ),
        decreases record@.len() - i,
    {
        let ty = crate::infer::detect_data_type_cached(patterns, record[i].as_str());
        let c = scheme.cell_color(&ty);
        out.push(c);
        i = i + 1;
    }
    out
}

} // verus!
