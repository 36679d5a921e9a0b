//! The annotated-Markdown source: `$$ ... $$` blocks, each with an optional
//! leading `%%yes%%`/`%%no%%` marker and an optional trailing `%%name%%` marker.
use vstd::prelude::*;
use crate::equation::{build_equations, fallback_name, sanitized, unique_name, views, Equation};
use crate::text::{chars_of, string_of, trim, trimmed};

verus! {

/// One match of the block grammar: the `yes`/`no` of the leading marker if it
/// had one, the text between the `$$` delimiters (untrimmed), and the text of
/// the trailing name marker if there was one.
#[derive(Debug, Clone)]
pub struct BlockMatch {
    pub flag: Option<String>,
    pub body: String,
    pub name: Option<String>,
}

/// The text of an optional string.
pub open spec fn opt_view(o: Option<String>) -> Option<Seq<char>> {
    match o {
        Some(s) => Some(s@),
        None => None,
    }
}

impl BlockMatch {
    /// The flag, body and name of the match as text.
    pub open spec fn parts(self) -> (Option<Seq<char>>, Seq<char>, Option<Seq<char>>) {
        (opt_view(self.flag), self.body@, opt_view(self.name))
    }
}

/// The parts of a block: the `yes`/`no` of its leading marker, its raw body,
/// and its name marker.
pub type Block = (Option<Seq<char>>, Seq<char>, Option<Seq<char>>);

/// Line breaks, which may stand around the `$$` delimiters.
pub open spec fn is_line_break(c: char) -> bool {
    c == '\n' || c == '\r'
}

/// The first position at or after `p` that holds no line break.
pub open spec fn skip_breaks(t: Seq<char>, p: int) -> int
    decreases t.len() - p,
{
    if 0 <= p < t.len() && is_line_break(t[p]) {
        skip_breaks(t, p + 1)
    } else {
        p
    }
}

/// Whether `lit` stands in `t` at `p`.
pub open spec fn lit_at(t: Seq<char>, p: int, lit: Seq<char>) -> bool {
    0 <= p && p + lit.len() <= t.len() && t.subrange(p, p + lit.len()) == lit
}

/// Whether the pair `cc` stands in `t` at `p`.
pub open spec fn pair_at(t: Seq<char>, p: int, c: char) -> bool {
    0 <= p && p + 1 < t.len() && t[p] == c && t[p + 1] == c
}

/// The first position at or after `p` where the pair `cc` stands, or -1.
pub open spec fn find_pair(t: Seq<char>, p: int, c: char) -> int
    decreases t.len() - p,
{
    if p < 0 || p + 1 >= t.len() {
        -1
    } else if pair_at(t, p, c) {
        p
    } else {
        find_pair(t, p + 1, c)
    }
}

/// A leading marker at `p`: `%%yes%%`, `%%no%%` or `%%%%`, with the flag it
/// gives and the position after it.
pub open spec fn marker_at(t: Seq<char>, p: int) -> Option<(Option<Seq<char>>, int)> {
    if lit_at(t, p, "%%yes%%"@) {
        Some((Some("yes"@), p + 7))
    } else if lit_at(t, p, "%%no%%"@) {
        Some((Some("no"@), p + 6))
    } else if lit_at(t, p, "%%%%"@) {
        Some((None, p + 4))
    } else {
        None
    }
}

/// The block after any leading marker, from `q`: line breaks, `$$`, line
/// breaks, the shortest body up to the next `$$`, line breaks, and then a
/// `%%name%%` (the shortest) if one stands there. Gives the body, the name and
/// the end of the match; none where `$$` is missing or not closed.
pub open spec fn block_rest(t: Seq<char>, q: int) -> Option<(Seq<char>, Option<Seq<char>>, int)> {
    let a = skip_breaks(t, q);
    if !pair_at(t, a, '$') {
        None
    } else {
        let b = skip_breaks(t, a + 2);
        let e = find_pair(t, b, '$');
        if e < 0 {
            None
        } else {
            let c = skip_breaks(t, e + 2);
            let f = find_pair(t, c + 2, '%');
            if pair_at(t, c, '%') && f >= 0 {
                Some((t.subrange(b, e), Some(t.subrange(c + 2, f)), f + 2))
            } else {
                Some((t.subrange(b, e), None, c))
            }
        }
    }
}

/// The block that starts at `p`, if any, and the end of its match: with the
/// leading marker where one stands at `p` and the rest follows it, else without.
pub open spec fn block_at(t: Seq<char>, p: int) -> Option<(Block, int)> {
    let plain = match block_rest(t, p) {
        Some((body, name, end)) => Some(((None::<Seq<char>>, body, name), end)),
        None => None,
    };
    match marker_at(t, p) {
        Some((flag, q)) => match block_rest(t, q) {
            Some((body, name, end)) => Some(((flag, body, name), end)),
            None => plain,
        },
        None => plain,
    }
}

/// The blocks of `t` from `p` on, left to right and without overlap: a block
/// where one starts, else the search goes on one character later.
pub open spec fn blocks_from(t: Seq<char>, p: int) -> Seq<Block>
    decreases t.len() - p,
{
    if p < 0 || p >= t.len() {
        Seq::empty()
    } else {
        match block_at(t, p) {
            Some((blk, end)) => if p < end <= t.len() {
                seq![blk] + blocks_from(t, end)
            } else {
                blocks_from(t, p + 1)
            },
            None => blocks_from(t, p + 1),
        }
    }
}

fn skip_line_breaks(t: &Vec<char>, p: usize) -> (r: usize)
    requires
        p <= t.len(),
    ensures
        r == skip_breaks(t@, p as int),
        p <= r <= t.len(),
{
    let mut i = p;
    while i < t.len() && (t[i] == '\n' || t[i] == '\r')
        invariant
            p <= i <= t.len(),
            skip_breaks(t@, i as int) == skip_breaks(t@, p as int),
        decreases t.len() - i,
    {
        i = i + 1;
    }
    i
}

fn has_pair(t: &Vec<char>, p: usize, c: char) -> (r: bool)
    ensures
        r == pair_at(t@, p as int, c),
{
    p < t.len() && t.len() - p > 1 && t[p] == c && t[p + 1] == c
}

fn next_pair(t: &Vec<char>, p: usize, c: char) -> (r: Option<usize>)
    ensures
        match r {
            Some(q) => find_pair(t@, p as int, c) == q && p <= q && q + 1 < t.len(),
            None => find_pair(t@, p as int, c) == -1,
        },
{
    let mut i = p;
    while i < t.len() && t.len() - i > 1
        invariant
            p <= i,
            find_pair(t@, i as int, c) == find_pair(t@, p as int, c),
        decreases t.len() - i,
    {
        if t[i] == c && t[i + 1] == c {
            return Some(i);
        }
        i = i + 1;
    }
    None
}

fn has_lit(t: &Vec<char>, p: usize, lit: &Vec<char>) -> (r: bool)
    ensures
        r == lit_at(t@, p as int, lit@),
        r ==> p + lit.len() <= t.len(),
{
    if p > t.len() || t.len() - p < lit.len() {
        return false;
    }
    let mut i: usize = 0;
    while i < lit.len()
        invariant
            p + lit.len() <= t.len(),
            i <= lit.len(),
            forall|k: int| 0 <= k < i ==> t@[p + k] == lit@[k],
        decreases lit.len() - i,
    {
        if t[p + i] != lit[i] {
            assert(t@.subrange(p as int, p + lit.len())[i as int] != lit@[i as int]);
            return false;
        }
        i = i + 1;
    }
    assert(t@.subrange(p as int, p + lit.len()) =~= lit@);
    true
}

fn leading_marker(t: &Vec<char>, p: usize) -> (r: Option<(Option<String>, usize)>)
    ensures
        match r {
            Some((flag, q)) => marker_at(t@, p as int) == Some((opt_view(flag), q as int))
                && q <= t.len(),
            None => marker_at(t@, p as int) is None,
        },
{
    let yes = chars_of("%%yes%%");
    let no = chars_of("%%no%%");
    let bare = chars_of("%%%%");
    proof {
        reveal_strlit("%%yes%%");
        reveal_strlit("%%no%%");
        reveal_strlit("%%%%");
        assert(yes@.len() == 7);
        assert(no@.len() == 6);
        assert(bare@.len() == 4);
    }
    if has_lit(t, p, &yes) {
        Some((Some(String::from_str("yes")), p + 7))
    } else if has_lit(t, p, &no) {
        Some((Some(String::from_str("no")), p + 6))
    } else if has_lit(t, p, &bare) {
        Some((None, p + 4))
    } else {
        None
    }
}

fn rest_of_block(t: &Vec<char>, q: usize) -> (r: Option<(String, Option<String>, usize)>)
    requires
        q <= t.len(),
    ensures
        match r {
            Some((body, name, end)) => block_rest(t@, q as int) == Some(
                (body@, opt_view(name), end as int),
            ) && q < end <= t.len(),
            None => block_rest(t@, q as int) is None,
        },
{
    let a = skip_line_breaks(t, q);
    if !has_pair(t, a, '$') {
        return None;
    }
    let b = skip_line_breaks(t, a + 2);
    let e = match next_pair(t, b, '$') {
        Some(e) => e,
        None => return None,
    };
    let body = string_of(t, b, e);
    let c = skip_line_breaks(t, e + 2);
    if has_pair(t, c, '%') {
        if let Some(f) = next_pair(t, c + 2, '%') {
            return Some((body, Some(string_of(t, c + 2, f)), f + 2));
        }
    }
    Some((body, None, c))
}

fn block_starting_at(t: &Vec<char>, p: usize) -> (r: Option<(BlockMatch, usize)>)
    requires
        p < t.len(),
    ensures
        match r {
            Some((b, end)) => block_at(t@, p as int) == Some((b.parts(), end as int)) && p < end
                <= t.len(),
            None => block_at(t@, p as int) is None,
        },
{
    if let Some((flag, q)) = leading_marker(t, p) {
        if let Some((body, name, end)) = rest_of_block(t, q) {
            return Some((BlockMatch { flag, body, name }, end));
        }
    }
    match rest_of_block(t, p) {
        Some((body, name, end)) => Some((BlockMatch { flag: None, body, name }, end)),
        None => None,
    }
}

/// A text in which `$$` never stands holds no block: the parser never fails,
/// it only finds nothing.
pub proof fn lemma_no_delimiters_no_blocks(t: Seq<char>, p: int)
    requires
        forall|q: int| !#[trigger] pair_at(t, q, '$'),
    ensures
        blocks_from(t, p) == Seq::<Block>::empty(),
    decreases t.len() - p,
{
    if 0 <= p < t.len() {
        lemma_no_delimiters_no_blocks(t, p + 1);
    }
}

/// The equation blocks of a text, in order.
pub fn find_blocks(content: &str) -> (r: Vec<BlockMatch>)
    ensures
        r@.map_values(|b: BlockMatch| b.parts()) == blocks_from(content@, 0),
{
    let t = chars_of(content);
    let mut out: Vec<BlockMatch> = Vec::new();
    let mut p: usize = 0;
    while p < t.len()
        invariant
            t@ == content@,
            p <= t.len(),
            out@.map_values(|b: BlockMatch| b.parts()) + blocks_from(t@, p as int) == blocks_from(
                t@,
                0,
            ),
        decreases t.len() - p,
    {
        let ghost before = out@.map_values(|b: BlockMatch| b.parts());
        match block_starting_at(&t, p) {
            Some((b, end)) => {
                let ghost blk = b.parts();
                out.push(b);
                assert(out@.map_values(|b: BlockMatch| b.parts()) =~= before.push(blk));
                assert(seq![blk] + blocks_from(t@, end as int) =~= blocks_from(t@, p as int));
                assert(before.push(blk) + blocks_from(t@, end as int) =~= before + (seq![blk]
                    + blocks_from(t@, end as int)));
                p = end;
            },
            None => {
                p = p + 1;
            },
        }
    }
    assert(blocks_from(t@, p as int) =~= Seq::<Block>::empty());
    assert(out@.map_values(|b: BlockMatch| b.parts()) + Seq::<Block>::empty() =~= out@.map_values(
        |b: BlockMatch| b.parts(),
    ));
    out
}

/// A block is active unless its leading marker says `no`; without a marker it is active.
pub open spec fn block_active(b: (Option<Seq<char>>, Seq<char>, Option<Seq<char>>)) -> bool {
    match b.0 {
        Some(f) => f == "yes"@,
        None => true,
    }
}

/// The body of a block: the text between the delimiters, trimmed.
pub open spec fn block_body(b: (Option<Seq<char>>, Seq<char>, Option<Seq<char>>)) -> Seq<char> {
    trimmed(b.1)
}

/// The base name of a block: its name marker, or the fallback name without one.
pub open spec fn block_base(b: (Option<Seq<char>>, Seq<char>, Option<Seq<char>>)) -> Seq<char> {
    match b.2 {
        Some(n) => n,
        None => fallback_name(),
    }
}

/// The equation that the `i`-th of `blocks` yields.
pub open spec fn block_equation_ok(
    blocks: Seq<(Option<Seq<char>>, Seq<char>, Option<Seq<char>>)>,
    i: int,
    e: Equation,
) -> bool {
    &&& e.active == block_active(blocks[i])
    &&& e.body@ == block_body(blocks[i])
    &&& e.name@ == sanitized(
        unique_name(
            blocks.map_values(|b: (Option<Seq<char>>, Seq<char>, Option<Seq<char>>)| block_base(b)),
            i,
        ),
    )
}

/// Turns matched blocks into equations, in order, numbering repeated names.
pub fn equations_from_blocks(blocks: &Vec<BlockMatch>) -> (r: Vec<Equation>)
    ensures
        r.len() == blocks.len(),
        forall|i: int|
            0 <= i < r.len() ==> block_equation_ok(
                blocks@.map_values(|b: BlockMatch| b.parts()),
                i,
                #[trigger] r[i],
            ),
        forall|i: int| 0 <= i < r.len() ==> (#[trigger] r[i]).well_formed(),
{
    let ghost bs = blocks@.map_values(|b: BlockMatch| b.parts());
    let yes = String::from_str("yes");
    let mut actives: Vec<bool> = Vec::new();
    let mut bodies: Vec<String> = Vec::new();
    let mut bases: Vec<String> = Vec::new();
    for i in 0..blocks.len()
        invariant
            bs == blocks@.map_values(|b: BlockMatch| b.parts()),
            yes@ == "yes"@,
            actives.len() == i,
            bodies.len() == i,
            bases.len() == i,
            forall|k: int|
                0 <= k < i ==> {
                    &&& actives[k] == block_active(#[trigger] bs[k])
                    &&& bodies[k]@ == block_body(bs[k])
                    &&& bases[k]@ == block_base(bs[k])
                },
    {
        let b = &blocks[i];
        assert(bs[i as int] == b.parts());
        let active = match &b.flag {
            Some(f) => *f == yes,
            None => true,
        };
        let base = match &b.name {
            Some(n) => n.clone(),
            None => String::from_str(crate::equation::FALLBACK_NAME),
        };
        actives.push(active);
        bodies.push(trim(b.body.as_str()).to_owned());
        bases.push(base);
    }
    assert forall|k: int| 0 <= k < bases.len() implies views(bases@)[k] == block_base(
        #[trigger] bs[k],
    ) by {}
    assert(views(bases@) =~= bs.map_values(
        |b: (Option<Seq<char>>, Seq<char>, Option<Seq<char>>)| block_base(b),
    ));
    build_equations(&actives, &bases, &bodies)
}

/// Extracts every equation block of a Markdown text, in document order.
/// Text that does not match the grammar yields nothing; this never fails.
pub fn parse_markdown(content: &str) -> (r: Vec<Equation>)
    ensures
        r.len() == blocks_from(content@, 0).len(),
        forall|i: int|
            0 <= i < r.len() ==> block_equation_ok(blocks_from(content@, 0), i, #[trigger] r[i]),
        forall|i: int| 0 <= i < r.len() ==> (#[trigger] r[i]).well_formed(),
{
    let blocks = find_blocks(content);
    equations_from_blocks(&blocks)
}

} // verus!
