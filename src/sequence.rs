use vstd::prelude::*;
use vstd::string::*;
use crate::geometry::{rect_is_empty, rect_width, rect_height};
use crate::page::{Page, PageView};
use crate::export::ExportError;

verus! {

/// The number of decimal digits of `n`; zero has one.
pub open spec fn digit_count(n: nat) -> nat
    decreases n,
{
    if n < 10 {
        1
    } else {
        1 + digit_count(n / 10)
    }
}

pub open spec fn digit_char(d: nat) -> char {
    if d == 0 { '0' }
    else if d == 1 { '1' }
    else if d == 2 { '2' }
    else if d == 3 { '3' }
    else if d == 4 { '4' }
    else if d == 5 { '5' }
    else if d == 6 { '6' }
    else if d == 7 { '7' }
    else if d == 8 { '8' }
    else { '9' }
}

/// The decimal digits of `n`, most significant first.
pub open spec fn decimal(n: nat) -> Seq<char>
    decreases n,
{
    if n < 10 {
        seq![digit_char(n)]
    } else {
        decimal(n / 10).push(digit_char(n % 10))
    }
}

/// `n` in decimal, with zeros in front up to `width` characters.
pub open spec fn padded_decimal(n: nat, width: nat) -> Seq<char> {
    let zeros: nat = if width > digit_count(n) { (width - digit_count(n)) as nat } else { 0 };
    Seq::new(zeros, |i: int| '0') + decimal(n)
}

/// The text with every `{}` replaced by `folio`, scanning left to right.
pub open spec fn fill_placeholder(text: Seq<char>, folio: Seq<char>) -> Seq<char>
    decreases text.len(),
{
    if text.len() < 2 {
        text
    } else if text[0] == '{' && text[1] == '}' {
        folio + fill_placeholder(text.subrange(2, text.len() as int), folio)
    } else {
        seq![text[0]] + fill_placeholder(text.subrange(1, text.len() as int), folio)
    }
}

/// The width page numbers are padded to: `-1` asks for just enough digits for the
/// last page number, a non-negative value is taken as it is, and any other value
/// pads nothing.
pub open spec fn padding_width_spec(padding: i64, page_count: nat) -> nat {
    if padding == -1 {
        digit_count(page_count)
    } else if padding >= 0 {
        padding as nat
    } else {
        0
    }
}

pub open spec fn pow10(m: nat) -> nat
    decreases m,
{
    if m == 0 {
        1
    } else {
        10 * pow10((m - 1) as nat)
    }
}

/// A number below `10^m` has at most `m` digits; the digits of a number are as many
/// as its digit count.
pub proof fn lemma_digit_count_bound(n: nat, m: nat)
    requires
        m >= 1,
        n < pow10(m),
    ensures
        1 <= digit_count(n) <= m,
        decimal(n).len() == digit_count(n),
    decreases n,
{
    if n >= 10 {
        assert(m >= 2) by {
            if m == 1 {
                reveal_with_fuel(pow10, 2);
            }
        }
        lemma_digit_count_bound(n / 10, (m - 1) as nat);
    }
}

proof fn lemma_u64_digits(n: u64)
    ensures
        1 <= digit_count(n as nat) <= 20,
        decimal(n as nat).len() == digit_count(n as nat),
{
    reveal_with_fuel(pow10, 21);
    assert(pow10(20) == 100000000000000000000);
    lemma_digit_count_bound(n as nat, 20);
}

/// How many decimal digits `n` has.
pub fn count_digits(n: u64) -> (r: usize)
    ensures
        r == digit_count(n as nat),
{
    proof {
        lemma_u64_digits(n);
    }
    let mut k: u64 = n;
    let mut count: usize = 1;
    while k >= 10
        invariant
            1 <= count,
            count + digit_count(k as nat) == digit_count(n as nat) + 1,
            digit_count(n as nat) <= 20,
            digit_count(k as nat) >= 1,
        decreases k,
    {
        proof {
            lemma_u64_digits(k / 10);
        }
        k = k / 10;
        count = count + 1;
    }
    count
}

/// The width page numbers are padded to for a sequence of `page_count` pages.
pub fn padding_width(padding: i64, page_count: usize) -> (r: usize)
    requires
        padding <= usize::MAX,
    ensures
        r == padding_width_spec(padding, page_count as nat),
{
    if padding == -1 {
        count_digits(page_count as u64)
    } else if padding >= 0 {
        padding as usize
    } else {
        0
    }
}

fn digit_text(d: u64) -> (r: &'static str)
    requires
        d < 10,
    ensures
        r@ == seq![digit_char(d as nat)],
{
    proof {
        reveal_strlit("0123456789");
    }
    let all: &'static str = "0123456789";
    let r = all.substring_char(d as usize, d as usize + 1);
    assert(r@ =~= seq![digit_char(d as nat)]);
    r
}

/// `n` in decimal, most significant digit first.
pub fn decimal_text(n: u64) -> (r: String)
    ensures
        r@ == decimal(n as nat),
    decreases n,
{
    if n < 10 {
        String::from_str(digit_text(n))
    } else {
        let mut head = decimal_text(n / 10);
        head.append(digit_text(n % 10));
        head
    }
}

/// `n` in decimal, padded with zeros in front to at least `width` characters.
pub fn folio(n: u64, width: usize) -> (r: String)
    ensures
        r@ == padded_decimal(n as nat, width as nat),
{
    let digits = count_digits(n);
    let mut r = String::new();
    let mut k: usize = digits;
    while k < width
        invariant
            digits == digit_count(n as nat),
            digits <= k,
            digits <= width ==> k <= width,
            digits > width ==> k == digits,
            r@ == Seq::new((k - digits) as nat, |i: int| '0'),
        decreases width - k,
    {
        proof {
            reveal_strlit("0");
        }
        r.append("0");
        k = k + 1;
        assert(r@ =~= Seq::new((k - digits) as nat, |i: int| '0'));
    }
    proof {
        if width <= digits {
            assert(r@ =~= Seq::<char>::empty());
        } else {
            assert(k == width);
        }
    }
    let d = decimal_text(n);
    r.append(d.as_str());
    proof {
        lemma_u64_digits(n);
    }
    r
}

/// The pattern with every `{}` replaced by `folio`.
pub fn fill_pattern(pattern: &str, folio: &str) -> (r: String)
    ensures
        r@ == fill_placeholder(pattern@, folio@),
{
    let n = pattern.unicode_len();
    let mut r = String::new();
    let mut i: usize = 0;
    assert(pattern@.subrange(0, n as int) =~= pattern@);
    assert(r@ + pattern@ =~= pattern@);
    while i < n
        invariant
            n == pattern@.len(),
            i <= n,
            r@ + fill_placeholder(pattern@.subrange(i as int, n as int), folio@) == fill_placeholder(
                pattern@,
                folio@,
            ),
        decreases n - i,
    {
        let ghost rest = pattern@.subrange(i as int, n as int);
        let ghost before = r@;
        if i + 1 < n && pattern.get_char(i) == '{' && pattern.get_char(i + 1) == '}' {
            assert(rest.subrange(2, rest.len() as int) =~= pattern@.subrange(i + 2, n as int));
            r.append(folio);
            i = i + 2;
            assert(r@ + fill_placeholder(pattern@.subrange(i as int, n as int), folio@) =~= before + (
            folio@ + fill_placeholder(pattern@.subrange(i as int, n as int), folio@)));
        } else {
            let one = pattern.substring_char(i, i + 1);
            proof {
                if rest.len() >= 2 {
                    assert(rest.subrange(1, rest.len() as int) =~= pattern@.subrange(i + 1, n as int));
                } else {
                    assert(pattern@.subrange(i + 1, n as int) =~= Seq::<char>::empty());
                    assert(rest =~= seq![pattern@[i as int]]);
                }
            }
            r.append(one);
            i = i + 1;
            assert(r@ + fill_placeholder(pattern@.subrange(i as int, n as int), folio@) =~= before + (
            seq![pattern@[i - 1]] + fill_placeholder(pattern@.subrange(i as int, n as int), folio@)));
        }
    }
    assert(pattern@.subrange(n as int, n as int) =~= Seq::<char>::empty());
    assert(r@ + Seq::<char>::empty() =~= r@);
    r
}

/// The file name of the page numbered `number` (from 1) in a sequence written with
/// `pattern`, numbers padded to `width`.
pub open spec fn page_filename(pattern: Seq<char>, number: nat, width: nat) -> Seq<char> {
    fill_placeholder(pattern, padded_decimal(number, width))
}

/// The file names for `count` pages: page `i` (from 0) gets number `i + 1`.
pub fn sequence_filenames(pattern: &str, count: usize, padding: i64) -> (r: Vec<String>)
    requires
        padding <= usize::MAX,
    ensures
        r.len() == count,
        forall|i: int|
            0 <= i < count ==> #[trigger] r@[i]@ == page_filename(
                pattern@,
                (i + 1) as nat,
                padding_width_spec(padding, count as nat),
            ),
{
    let width = padding_width(padding, count);
    let mut r: Vec<String> = Vec::new();
    let mut i: usize = 0;
    while i < count
        invariant
            i <= count,
            r.len() == i,
            width == padding_width_spec(padding, count as nat),
            forall|k: int|
                0 <= k < i ==> #[trigger] r@[k]@ == page_filename(pattern@, (k + 1) as nat, width as nat),
        decreases count - i,
    {
        let number = folio(i as u64 + 1, width);
        r.push(fill_pattern(pattern, number.as_str()));
        i = i + 1;
    }
    r
}

/// The pages of one export, in order.
pub struct PageSequence {
    pub pages: Vec<Page>,
}

/// The size of each document page, in order, or `EmptyPage` if any page has no area.
pub open spec fn document_sizes_spec(pages: Seq<PageView>) -> Option<Seq<(u32, u32)>> {
    if exists|i: int| 0 <= i < pages.len() && rect_is_empty(#[trigger] pages[i].bounds) {
        None
    } else {
        Some(
            Seq::new(
                pages.len(),
                |i: int| (rect_width(pages[i].bounds) as u32, rect_height(pages[i].bounds) as u32),
            ),
        )
    }
}

impl PageSequence {
    pub open spec fn pages_view(&self) -> Seq<PageView> {
        self.pages@.map_values(|p: Page| p@)
    }

    pub fn from(pages: Vec<Page>) -> (r: PageSequence)
        ensures
            r.pages@ == pages@,
    {
        PageSequence { pages }
    }

    pub fn first(&self) -> (r: &Page)
        requires
            self.pages.len() > 0,
        ensures
            *r == self.pages@[0],
    {
        &self.pages[0]
    }

    pub fn len(&self) -> (r: usize)
        ensures
            r == self.pages.len(),
    {
        self.pages.len()
    }

    /// The page sizes of a multi-page document made of the sequence, one per page in
    /// order. Fails with `EmptyPage` as soon as a page has no area; no page is skipped.
    pub fn document_sizes(&self) -> (r: Result<Vec<(u32, u32)>, ExportError>)
        ensures
            match r {
                Ok(sizes) => document_sizes_spec(self.pages_view()) == Some(sizes@),
                Err(e) => e == ExportError::EmptyPage && document_sizes_spec(self.pages_view()) is None,
            },
    {
        let ghost pv = self.pages_view();
        let mut sizes: Vec<(u32, u32)> = Vec::new();
        let mut i: usize = 0;
        while i < self.pages.len()
            invariant
                pv == self.pages_view(),
                i <= self.pages.len(),
                sizes.len() == i,
                forall|k: int| 0 <= k < i ==> !rect_is_empty(#[trigger] pv[k].bounds),
                forall|k: int|
                    0 <= k < i ==> #[trigger] sizes@[k] == (
                        rect_width(pv[k].bounds) as u32,
                        rect_height(pv[k].bounds) as u32,
                    ),
            decreases self.pages.len() - i,
        {
            let b = self.pages[i].bounds;
            if b.is_empty() {
                assert(rect_is_empty(pv[i as int].bounds));
                return Err(ExportError::EmptyPage);
            }
            sizes.push((b.width(), b.height()));
            i = i + 1;
        }
        assert(sizes@ =~= Seq::new(
            pv.len(),
            |k: int| (rect_width(pv[k].bounds) as u32, rect_height(pv[k].bounds) as u32),
        ));
        Ok(sizes)
    }
}

} // verus!
