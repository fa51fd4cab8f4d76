//! The pixel grid and its plain-text PPM serialization.

use crate::scalar::{in_range, Scalar, SCALE};
use crate::tuples::Tuple;
use vstd::prelude::*;
use vstd::string::StringExecFns;
use vstd::string::StringSliceAdditionalSpecFns;
use vstd::utf8::{is_ascii_chars, is_ascii_chars_encode_utf8};
use vstd::arithmetic::div_mod::lemma_div_decreases;

verus! {

/// The 8-bit channel value of one color component: 255 times the
/// component, rounded half up, clamped into 0..=255.
pub open spec fn spec_channel(v: int) -> int {
    if v <= 0 {
        0
    } else {
        let q = (v * 255 + 500_000_000) / (SCALE as int);
        if q >= 255 {
            255
        } else {
            q
        }
    }
}

/// Converts one color component to its 8-bit channel value.
pub fn scalar_to_u8(value: Scalar) -> (r: u8)
    requires
        in_range(value as int),
    ensures
        r as int == spec_channel(value as int),
{
    if value <= 0 {
        0
    } else {
        let x: i128 = value * 255 + 500_000_000;
        let q: u128 = (x as u128) / (SCALE as u128);
        if q >= 255 {
            255
        } else {
            q as u8
        }
    }
}

/// One decimal digit as a character.
pub open spec fn digit_char(d: int) -> char {
    if d == 0 {
        '0'
    } else if d == 1 {
        '1'
    } else if d == 2 {
        '2'
    } else if d == 3 {
        '3'
    } else if d == 4 {
        '4'
    } else if d == 5 {
        '5'
    } else if d == 6 {
        '6'
    } else if d == 7 {
        '7'
    } else if d == 8 {
        '8'
    } else {
        '9'
    }
}

/// The decimal digits of a nonnegative number, most significant first.
pub open spec fn spec_digits(n: nat) -> Seq<char>
    decreases n,
{
    if n < 10 {
        seq![digit_char(n as int)]
    } else {
        spec_digits(n / 10).push(digit_char((n % 10) as int))
    }
}

/// Decimal digits are ASCII and never empty.
pub proof fn lemma_digits_ascii(n: nat)
    ensures
        is_ascii_chars(spec_digits(n)),
        spec_digits(n).len() >= 1,
    decreases n,
{
    if n >= 10 {
        lemma_digits_ascii(n / 10);
        assert(spec_digits(n) == spec_digits(n / 10).push(digit_char((n % 10) as int)));
    }
}

/// One decimal digit as a string slice.
fn digit_str(d: u64) -> (r: &'static str)
    requires
        d < 10,
    ensures
        r@ =~= seq![digit_char(d as int)],
{
    proof {
        reveal_strlit("0");
        reveal_strlit("1");
        reveal_strlit("2");
        reveal_strlit("3");
        reveal_strlit("4");
        reveal_strlit("5");
        reveal_strlit("6");
        reveal_strlit("7");
        reveal_strlit("8");
        reveal_strlit("9");
    }
    if d == 0 {
        "0"
    } else if d == 1 {
        "1"
    } else if d == 2 {
        "2"
    } else if d == 3 {
        "3"
    } else if d == 4 {
        "4"
    } else if d == 5 {
        "5"
    } else if d == 6 {
        "6"
    } else if d == 7 {
        "7"
    } else if d == 8 {
        "8"
    } else {
        "9"
    }
}

/// The decimal form of a nonnegative number.
pub fn dec_u64(n: u64) -> (r: String)
    ensures
        r@ == spec_digits(n as nat),
    decreases n,
{
    if n < 10 {
        let r = String::from_str(digit_str(n));
        proof {
            assert(r@ =~= spec_digits(n as nat));
        }
        r
    } else {
        proof {
            lemma_div_decreases(n as int, 10);
        }
        let mut s = dec_u64(n / 10);
        s.append(digit_str(n % 10));
        proof {
            assert(s@ =~= spec_digits(n as nat));
        }
        s
    }
}


/// A number of at most five digits yields at most five characters; smaller
/// bounds give proportionally fewer.
pub proof fn lemma_digits_len(n: nat)
    requires
        n < 100000,
    ensures
        spec_digits(n).len() <= 5,
        n < 10000 ==> spec_digits(n).len() <= 4,
        n < 1000 ==> spec_digits(n).len() <= 3,
        n < 100 ==> spec_digits(n).len() <= 2,
        n < 10 ==> spec_digits(n).len() == 1,
    decreases n,
{
    if n >= 10 {
        lemma_digits_len(n / 10);
    }
}

/// One step of line-wrapped output: the pending line is flushed first when
/// the addition would overrun the width; the separator goes in front of
/// every token but the first on its line. Returns the new output and the
/// new pending line.
pub open spec fn spec_put(
    out: Seq<char>,
    line: Seq<char>,
    sep: Seq<char>,
    max: int,
    s: Seq<char>,
) -> (Seq<char>, Seq<char>) {
    let wrap = line.len() + sep.len() + s.len() > max;
    let out1 = if wrap {
        out + line.push('\n')
    } else {
        out
    };
    let line1 = if wrap {
        Seq::<char>::empty()
    } else {
        line
    };
    if line1.len() == 0 {
        (out1, s)
    } else {
        (out1, line1 + sep + s)
    }
}

/// Ends the pending line: it moves to the output with a newline appended.
pub open spec fn spec_put_line(out: Seq<char>, line: Seq<char>) -> (Seq<char>, Seq<char>) {
    (out + line.push('\n'), Seq::<char>::empty())
}

/// Accumulates space-separated tokens into lines of a bounded width.
pub struct PpmFormatter {
    pub max_length: usize,
    pub separator: String,
    pub output: String,
    pub line: String,
}

impl PpmFormatter {
    /// Every stored string is ASCII, so byte and character counts agree;
    /// the pending line and separator are short enough to measure.
    pub open spec fn wf(self) -> bool {
        &&& is_ascii_chars(self.separator@)
        &&& is_ascii_chars(self.output@)
        &&& is_ascii_chars(self.line@)
        &&& self.separator@.len() <= usize::MAX
        &&& self.line@.len() <= usize::MAX
    }

    pub fn new(max_length: usize, separator: String) -> (r: PpmFormatter)
        requires
            is_ascii_chars(separator@),
            separator@.len() <= usize::MAX,
        ensures
            r.max_length == max_length,
            r.separator@ == separator@,
            r.output@ == Seq::<char>::empty(),
            r.line@ == Seq::<char>::empty(),
            r.wf(),
    {
        let r = PpmFormatter { max_length, separator, output: String::new(), line: String::new() };
        r
    }

    /// Appends one token, wrapping the line first if it would overrun.
    pub fn write(&mut self, string: String)
        requires
            old(self).wf(),
            is_ascii_chars(string@),
            old(self).line@.len() + old(self).separator@.len() + string@.len() <= usize::MAX,
        ensures
            final(self).wf(),
            final(self).max_length == old(self).max_length,
            final(self).separator@ == old(self).separator@,
            (final(self).output@, final(self).line@) == spec_put(
                old(self).output@,
                old(self).line@,
                old(self).separator@,
                old(self).max_length as int,
                string@,
            ),
    {
        proof {
            is_ascii_chars_encode_utf8(self.line@);
            is_ascii_chars_encode_utf8(self.separator@);
            is_ascii_chars_encode_utf8(string@);
        }
        let line_str = self.line.as_str();
        let line_len = line_str.len() as u128;
        proof {
            assert(line_str@ == self.line@);
            assert(line_str.spec_bytes() == vstd::utf8::encode_utf8(line_str@));
            assert(line_str.spec_bytes().len() == line_str@.len());
        }
        let sep_len = self.separator.as_str().len() as u128;
        let str_len = string.as_str().len() as u128;
        let wrap = line_len + sep_len + str_len > self.max_length as u128;
        proof {
            assert(line_len == old(self).line@.len());
            assert(sep_len == old(self).separator@.len());
            assert(str_len == string@.len());
            assert(wrap == (old(self).line@.len() + old(self).separator@.len() + string@.len()
                > old(self).max_length));
        }
        if wrap {
            self.new_line();
            proof {
                assert(self.output@ =~= old(self).output@ + old(self).line@.push('\n'));
                assert(self.line@ =~= Seq::<char>::empty());
            }
        }
        if !self.line.as_str().is_empty() {
            let sep = self.separator.clone();
            self.line.append(sep.as_str());
        }
        self.line.append(string.as_str());
        proof {
            let expected = spec_put(
                old(self).output@,
                old(self).line@,
                old(self).separator@,
                old(self).max_length as int,
                string@,
            );
            assert(self.output@ =~= expected.0);
            assert(self.line@ =~= expected.1);
            assert(is_ascii_chars(self.line@));
            assert(is_ascii_chars(self.output@));
        }
    }

    /// Moves the pending line, with a newline appended, onto the output.
    pub fn new_line(&mut self)
        requires
            old(self).wf(),
        ensures
            final(self).wf(),
            final(self).max_length == old(self).max_length,
            final(self).separator@ == old(self).separator@,
            (final(self).output@, final(self).line@) == spec_put_line(old(self).output@, old(self).line@),
    {
        let line = self.line.clone();
        self.output.append(line.as_str());
        self.output.append("\n");
        self.line = String::new();
        proof {
            reveal_strlit("\n");
            assert("\n"@ =~= seq!['\n']);
            assert(self.output@ =~= old(self).output@ + old(self).line@.push('\n'));
        }
    }

    /// Ends a nonempty pending line; an empty one is left alone.
    pub fn flush(&mut self)
        requires
            old(self).wf(),
        ensures
            final(self).wf(),
            final(self).max_length == old(self).max_length,
            final(self).separator@ == old(self).separator@,
            old(self).line@.len() == 0 ==> (final(self).output@, final(self).line@) == (
                old(self).output@,
                old(self).line@,
            ),
            old(self).line@.len() > 0 ==> (final(self).output@, final(self).line@) == spec_put_line(
                old(self).output@,
                old(self).line@,
            ),
    {
        proof {
            is_ascii_chars_encode_utf8(self.line@);
        }
        if !self.line.as_str().is_empty() {
            self.new_line();
        }
    }

    /// The accumulated output, after a final flush.
    pub fn to_string(&mut self) -> (r: String)
        requires
            old(self).wf(),
        ensures
            final(self).wf(),
            old(self).line@.len() == 0 ==> r@ == old(self).output@,
            old(self).line@.len() > 0 ==> r@ == old(self).output@ + old(self).line@.push('\n'),
    {
        self.flush();
        self.output.clone()
    }
}

/// A row-major index is within the grid.
pub proof fn lemma_row_major(x: int, y: int, w: int, h: int)
    requires
        0 <= x < w,
        0 <= y < h,
    ensures
        0 <= y * w + x < w * h,
{
    assert(0 <= y * w + x < w * h) by (nonlinear_arith)
        requires
            0 <= x < w,
            0 <= y < h,
    ;
}

/// Distinct grid coordinates have distinct row-major indices.
pub proof fn lemma_row_major_injective(x1: int, y1: int, x2: int, y2: int, w: int)
    requires
        0 <= x1 < w,
        0 <= x2 < w,
        0 <= y1,
        0 <= y2,
        y1 * w + x1 == y2 * w + x2,
    ensures
        x1 == x2 && y1 == y2,
{
    assert(x1 == x2 && y1 == y2) by (nonlinear_arith)
        requires
            0 <= x1 < w,
            0 <= x2 < w,
            0 <= y1,
            0 <= y2,
            y1 * w + x1 == y2 * w + x2,
    ;
}

/// A width-by-height grid of colors, row-major.
pub struct Canvas {
    pub width: usize,
    pub height: usize,
    pub pixels: Vec<Tuple>,
}

impl Canvas {
    pub open spec fn wf(self) -> bool {
        &&& self.width <= 30000
        &&& self.height <= 30000
        &&& self.pixels@.len() == self.width * self.height
        &&& forall|i: int| 0 <= i < self.pixels@.len() ==> (#[trigger] self.pixels@[i]).wf()
    }

    pub open spec fn spec_pixel(self, x: int, y: int) -> Tuple {
        self.pixels@[y * self.width + x]
    }

    /// A black canvas of the given dimensions.
    pub fn new(width: usize, height: usize) -> (r: Canvas)
        requires
            width <= 30000,
            height <= 30000,
        ensures
            r.width == width,
            r.height == height,
            r.wf(),
            forall|x: int, y: int|
                0 <= x < width && 0 <= y < height ==> #[trigger] r.spec_pixel(x, y) == (Tuple {
                    x: 0,
                    y: 0,
                    z: 0,
                    w: 0,
                }),
    {
        proof {
            assert(width * height <= 900_000_000) by (nonlinear_arith)
                requires
                    width <= 30000,
                    height <= 30000,
            ;
        }
        let total = width * height;
        let mut pixels: Vec<Tuple> = Vec::new();
        let mut i: usize = 0;
        while i < total
            invariant
                i <= total,
                pixels@.len() == i,
                forall|j: int| 0 <= j < i ==> pixels@[j] == (Tuple { x: 0, y: 0, z: 0, w: 0 }),
            decreases total - i,
        {
            pixels.push(Tuple::black());
            i = i + 1;
        }
        let r = Canvas { width, height, pixels };
        proof {
            assert forall|x: int, y: int| 0 <= x < width && 0 <= y < height implies #[trigger] r
                .spec_pixel(x, y) == (Tuple { x: 0, y: 0, z: 0, w: 0 }) by {
                lemma_row_major(x, y, width as int, height as int);
            }
        }
        r
    }

    pub fn pixel_at(&self, x: usize, y: usize) -> (r: Tuple)
        requires
            self.wf(),
            x < self.width,
            y < self.height,
        ensures
            r == self.spec_pixel(x as int, y as int),
    {
        proof {
            lemma_row_major(x as int, y as int, self.width as int, self.height as int);
            assert((y as int) * (self.width as int) + x <= 900_000_000) by (nonlinear_arith)
                requires
                    x < self.width <= 30000,
                    y < self.height <= 30000,
            ;
        }
        self.pixels[y * self.width + x]
    }

    /// Stores one pixel; every other pixel keeps its color.
    pub fn write_pixel(&mut self, x: usize, y: usize, c: Tuple)
        requires
            old(self).wf(),
            x < old(self).width,
            y < old(self).height,
            c.wf(),
        ensures
            final(self).wf(),
            final(self).width == old(self).width,
            final(self).height == old(self).height,
            final(self).spec_pixel(x as int, y as int) == c,
            forall|x2: int, y2: int|
                0 <= x2 < old(self).width && 0 <= y2 < old(self).height && !(x2 == x as int && y2
                    == y as int) ==> #[trigger] final(self).spec_pixel(x2, y2) == old(
                    self,
                ).spec_pixel(x2, y2),
    {
        proof {
            lemma_row_major(x as int, y as int, self.width as int, self.height as int);
            assert((y as int) * (self.width as int) + x <= 900_000_000) by (nonlinear_arith)
                requires
                    x < self.width <= 30000,
                    y < self.height <= 30000,
            ;
        }
        let idx = y * self.width + x;
        self.pixels.set(idx, c);
        proof {
            assert forall|x2: int, y2: int|
                0 <= x2 < old(self).width && 0 <= y2 < old(self).height && !(x2 == x as int && y2
                    == y as int) implies #[trigger] self.spec_pixel(x2, y2) == old(self).spec_pixel(
                x2,
                y2,
            ) by {
                lemma_row_major(x2, y2, self.width as int, self.height as int);
                if y2 * self.width + x2 == y * self.width + x {
                    lemma_row_major_injective(x2, y2, x as int, y as int, self.width as int);
                }
            }
        }
    }

    /// The flat 8-bit red, green, blue bytes of the first `n` pixels.
    pub open spec fn spec_rgb_fold(self, n: int) -> Seq<u8>
        decreases n,
    {
        if n <= 0 {
            Seq::<u8>::empty()
        } else {
            self.spec_rgb_fold(n - 1) + seq![
                spec_channel(self.pixels@[n - 1].x as int) as u8,
                spec_channel(self.pixels@[n - 1].y as int) as u8,
                spec_channel(self.pixels@[n - 1].z as int) as u8,
            ]
        }
    }

    /// The whole canvas as flat red, green, blue bytes, row-major.
    pub open spec fn spec_rgb(self) -> Seq<u8> {
        self.spec_rgb_fold(self.pixels@.len() as int)
    }

    proof fn lemma_rgb_fold_len(self, n: int)
        requires
            0 <= n,
        ensures
            self.spec_rgb_fold(n).len() == 3 * n,
        decreases n,
    {
        if n > 0 {
            self.lemma_rgb_fold_len(n - 1);
        }
    }


    /// The formatter state after writing the three channel values of the
    /// first `n` pixels of row `y`.
    pub open spec fn spec_ppm_row(
        self,
        st: (Seq<char>, Seq<char>),
        y: int,
        n: int,
    ) -> (Seq<char>, Seq<char>)
        decreases n,
    {
        if n <= 0 {
            st
        } else {
            let st1 = self.spec_ppm_row(st, y, n - 1);
            let p = self.spec_pixel(n - 1, y);
            let st2 = spec_put(
                st1.0,
                st1.1,
                seq![' '],
                69,
                spec_digits(spec_channel(p.x as int) as nat),
            );
            let st3 = spec_put(
                st2.0,
                st2.1,
                seq![' '],
                69,
                spec_digits(spec_channel(p.y as int) as nat),
            );
            spec_put(st3.0, st3.1, seq![' '], 69, spec_digits(spec_channel(p.z as int) as nat))
        }
    }

    /// The formatter state after the first `n` whole rows, each ended with
    /// a newline.
    pub open spec fn spec_ppm_rows(self, st: (Seq<char>, Seq<char>), n: int) -> (Seq<char>, Seq<
        char,
    >)
        decreases n,
    {
        if n <= 0 {
            st
        } else {
            let r = self.spec_ppm_row(self.spec_ppm_rows(st, n - 1), n - 1, self.width as int);
            spec_put_line(r.0, r.1)
        }
    }

    /// The whole plain-text PPM serialization: the `P3` magic, the
    /// dimensions, the `255` channel maximum, then every pixel row, all
    /// wrapped at 69 columns.
    pub open spec fn spec_ppm(self) -> Seq<char> {
        let st1 = spec_put(
            Seq::<char>::empty(),
            Seq::<char>::empty(),
            seq![' '],
            69,
            seq!['P', '3'],
        );
        let st2 = spec_put_line(st1.0, st1.1);
        let st3 = spec_put(
            st2.0,
            st2.1,
            seq![' '],
            69,
            spec_digits(self.width as nat) + seq![' '] + spec_digits(self.height as nat),
        );
        let st4 = spec_put_line(st3.0, st3.1);
        let st5 = spec_put(st4.0, st4.1, seq![' '], 69, seq!['2', '5', '5']);
        let st6 = spec_put_line(st5.0, st5.1);
        let stf = self.spec_ppm_rows(st6, self.height as int);
        if stf.1.len() == 0 {
            stf.0
        } else {
            stf.0 + stf.1.push('\n')
        }
    }

    /// Serializes the canvas as plain-text PPM.
    pub fn to_ppm(&self) -> (r: String)
        requires
            self.wf(),
        ensures
            r@ == self.spec_ppm(),
    {
        proof {
            reveal_strlit(" ");
            reveal_strlit("P3");
            reveal_strlit("255");
            assert(" "@ =~= seq![' ']);
            assert("P3"@ =~= seq!['P', '3']);
            assert("255"@ =~= seq!['2', '5', '5']);
        }
        let mut formatter = PpmFormatter::new(69, String::from_str(" "));
        formatter.write(String::from_str("P3"));
        formatter.new_line();
        let dims = dec_u64(self.width as u64).concat(" ").concat(
            dec_u64(self.height as u64).as_str(),
        );
        proof {
            lemma_digits_ascii(self.width as nat);
            lemma_digits_ascii(self.height as nat);
            lemma_digits_len(self.width as nat);
            lemma_digits_len(self.height as nat);
            assert(dims@ =~= spec_digits(self.width as nat) + seq![' '] + spec_digits(
                self.height as nat,
            ));
            assert(is_ascii_chars(dims@));
        }
        formatter.write(dims);
        formatter.new_line();
        formatter.write(String::from_str("255"));
        formatter.new_line();
        let ghost st6 = (formatter.output@, formatter.line@);
        let mut y: usize = 0;
        while y < self.height
            invariant
                self.wf(),
                y <= self.height,
                formatter.wf(),
                formatter.max_length == 69,
                formatter.separator@ =~= seq![' '],
                formatter.line@.len() <= 69,
                (formatter.output@, formatter.line@) == self.spec_ppm_rows(st6, y as int),
            decreases self.height - y,
        {
            let mut x: usize = 0;
            let ghost row_base = (formatter.output@, formatter.line@);
            while x < self.width
                invariant
                    self.wf(),
                    x <= self.width,
                    y < self.height,
                    formatter.wf(),
                    formatter.max_length == 69,
                    formatter.separator@ =~= seq![' '],
                    formatter.line@.len() <= 69,
                    (formatter.output@, formatter.line@) == self.spec_ppm_row(
                        row_base,
                        y as int,
                        x as int,
                    ),
                decreases self.width - x,
            {
                let p = self.pixel_at(x, y);
                proof {
                    lemma_row_major(x as int, y as int, self.width as int, self.height as int);
                    lemma_digits_ascii(spec_channel(p.x as int) as nat);
                    lemma_digits_ascii(spec_channel(p.y as int) as nat);
                    lemma_digits_ascii(spec_channel(p.z as int) as nat);
                    lemma_digits_len(spec_channel(p.x as int) as nat);
                    lemma_digits_len(spec_channel(p.y as int) as nat);
                    lemma_digits_len(spec_channel(p.z as int) as nat);
                }
                formatter.write(dec_u64(scalar_to_u8(p.x) as u64));
                formatter.write(dec_u64(scalar_to_u8(p.y) as u64));
                formatter.write(dec_u64(scalar_to_u8(p.z) as u64));
                x = x + 1;
            }
            formatter.new_line();
            proof {
                assert((formatter.output@, formatter.line@) == self.spec_ppm_rows(
                    st6,
                    y as int + 1,
                ));
            }
            y = y + 1;
        }
        formatter.to_string()
    }

    /// The canvas as 8-bit RGB bytes, three per pixel, row-major.
    pub fn to_rgb_vec(&self) -> (r: Vec<u8>)
        requires
            self.wf(),
        ensures
            r@ == self.spec_rgb(),
            r@.len() == 3 * self.pixels@.len(),
    {
        let mut out: Vec<u8> = Vec::new();
        let mut i: usize = 0;
        while i < self.pixels.len()
            invariant
                self.wf(),
                i <= self.pixels@.len(),
                out@ == self.spec_rgb_fold(i as int),
            decreases self.pixels@.len() - i,
        {
            let p = self.pixels[i];
            out.push(scalar_to_u8(p.x));
            out.push(scalar_to_u8(p.y));
            out.push(scalar_to_u8(p.z));
            proof {
                assert(out@ =~= self.spec_rgb_fold(i + 1));
            }
            i = i + 1;
        }
        proof {
            self.lemma_rgb_fold_len(self.pixels@.len() as int);
        }
        out
    }
}

} // verus!
