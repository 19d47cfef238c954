//! Turning the captured output of one `cargo rustc --print cfg` invocation
//! into per-target configurations.
//!
//! The output stream holds one block of lines per requested compiler
//! target; a blank line ends the current block and starts the next one. A
//! non-zero exit status of the command yields a command failure carrying the
//! captured standard error text, and no configuration is synthesized from
//! whatever standard output there may be.

use vstd::prelude::*;

use crate::cfg::parse_line;
use crate::cfg::Cfg;
use crate::cfg::CfgView;
use crate::error::Error;
use crate::target_cfg::cfg_views;
use crate::target_cfg::RustcTargetCfg;
use crate::text::spec_lines;
use crate::text::split_lines;

verus! {

/// The lines grouped into blocks: an empty line closes the block under
/// accumulation, and the final block needs no closing line. There is always
/// at least one block, possibly empty.
pub open spec fn split_blocks(lines: Seq<Seq<char>>) -> Seq<Seq<Seq<char>>>
    decreases lines.len(),
{
    if lines.len() == 0 {
        seq![seq![]]
    } else {
        let prev = split_blocks(lines.drop_last());
        if lines.last().len() == 0 {
            prev.push(seq![])
        } else {
            prev.update(prev.len() - 1, prev.last().push(lines.last()))
        }
    }
}

/// There is always at least one block.
pub proof fn lemma_split_blocks_len(lines: Seq<Seq<char>>)
    ensures
        split_blocks(lines).len() >= 1,
    decreases lines.len(),
{
    if lines.len() > 0 {
        lemma_split_blocks_len(lines.drop_last());
    }
}

/// The entries of one block: each line parsed, in order.
pub open spec fn parse_block(b: Seq<Seq<char>>) -> Seq<CfgView> {
    b.map_values(|l: Seq<char>| parse_line(l))
}

/// The model of parsing a whole output stream: the lines of the text,
/// grouped into blank-line-delimited blocks, each line parsed into an entry.
pub open spec fn parse_blocks(s: Seq<char>) -> Seq<Seq<CfgView>> {
    split_blocks(spec_lines(s)).map_values(|b: Seq<Seq<char>>| parse_block(b))
}

/// Parses the captured standard output of one invocation into one compiler
/// target configuration per blank-line-delimited block.
///
/// There is always at least one configuration: output without any blank
/// line is one block, and empty output is one empty block.
pub fn parse_output(stdout: &str) -> (r: Vec<RustcTargetCfg>)
    ensures
        r@.len() == parse_blocks(stdout@).len(),
        forall|i: int| 0 <= i < r@.len() ==> r@[i]@ == parse_blocks(stdout@)[i],
        r@.len() >= 1,
{
    let ghost lv = spec_lines(stdout@);
    let lines = split_lines(stdout);
    let mut targets: Vec<RustcTargetCfg> = Vec::new();
    let mut cur: Vec<Cfg> = Vec::new();
    let mut i: usize = 0;
    proof {
        assert(lv.take(0) =~= Seq::<Seq<char>>::empty());
        assert(cfg_views(cur@) =~= parse_block(split_blocks(lv.take(0)).last()));
    }
    while i < lines.len()
        invariant
            0 <= i <= lines.len(),
            lines@.len() == lv.len(),
            forall|j: int| 0 <= j < lv.len() ==> lines@[j]@ == lv[j],
            targets@.len() + 1 == split_blocks(lv.take(i as int)).len(),
            forall|j: int|
                0 <= j < targets@.len() ==> targets@[j]@ == parse_block(
                    split_blocks(lv.take(i as int))[j],
                ),
            cfg_views(cur@) == parse_block(split_blocks(lv.take(i as int)).last()),
        decreases lines.len() - i,
    {
        let ghost prev_blocks = split_blocks(lv.take(i as int));
        proof {
            lemma_split_blocks_len(lv.take(i as int));
            assert(lv.take(i + 1).drop_last() =~= lv.take(i as int));
            assert(lv.take(i + 1).last() == lv[i as int]);
        }
        if lines[i].as_str().unicode_len() == 0 {
            let done = cur;
            cur = Vec::new();
            targets.push(RustcTargetCfg(done));
            proof {
                assert(split_blocks(lv.take(i + 1)) =~= prev_blocks.push(seq![]));
                assert(cfg_views(cur@) =~= parse_block(seq![]));
            }
        } else {
            let e = Cfg::from_str(lines[i].as_str());
            let ghost pre_cur = cur@;
            let ghost ev = e@;
            cur.push(e);
            proof {
                let blocks = split_blocks(lv.take(i + 1));
                assert(blocks =~= prev_blocks.update(
                    prev_blocks.len() - 1,
                    prev_blocks.last().push(lv[i as int]),
                ));
                assert(blocks.last() == prev_blocks.last().push(lv[i as int]));
                assert(cur@ == pre_cur.push(cur@.last()));
                assert(cur@.last()@ == ev);
                assert(ev == parse_line(lv[i as int]));
                assert(cfg_views(pre_cur).len() == pre_cur.len());
                assert(parse_block(prev_blocks.last()).len() == prev_blocks.last().len());
                assert(pre_cur.len() == prev_blocks.last().len());
                assert(blocks.last().len() == prev_blocks.last().len() + 1);
                assert(parse_block(blocks.last()).len() == cur@.len());
                assert forall|j: int| 0 <= j < cur@.len() implies cfg_views(cur@)[j]
                    == parse_block(blocks.last())[j] by {
                    assert(cfg_views(cur@)[j] == cur@[j]@);
                    assert(parse_block(blocks.last())[j] == parse_line(blocks.last()[j]));
                    if j < cur@.len() - 1 {
                        assert(cfg_views(pre_cur)[j] == parse_block(prev_blocks.last())[j]);
                        assert(cfg_views(pre_cur)[j] == pre_cur[j]@);
                        assert(parse_block(prev_blocks.last())[j] == parse_line(
                            prev_blocks.last()[j],
                        ));
                        assert(cur@[j] == pre_cur[j]);
                        assert(blocks.last()[j] == prev_blocks.last()[j]);
                    } else {
                        assert(blocks.last()[j] == lv[i as int]);
                    }
                }
                assert(cfg_views(cur@) =~= parse_block(blocks.last()));
            }
        }
        i = i + 1;
    }
    proof {
        assert(lv.take(lines@.len() as int) =~= lv);
        lemma_split_blocks_len(lv);
    }
    targets.push(RustcTargetCfg(cur));
    proof {
        assert(forall|j: int|
            0 <= j < targets@.len() ==> targets@[j]@ == parse_blocks(stdout@)[j]);
    }
    targets
}

/// Interprets the outcome of one invocation of the command.
///
/// On success the captured standard output is parsed into one configuration
/// per blank-line-delimited block. On failure a command failure carrying
/// the captured standard error text is returned, whatever the standard
/// output holds.
pub fn interpret_output(success: bool, stdout: &str, stderr: &str) -> (r: Result<
    Vec<RustcTargetCfg>,
    Error,
>)
    ensures
        match r {
            Ok(cfgs) => success && cfgs@.len() == parse_blocks(stdout@).len() && (forall|i: int|
                0 <= i < cfgs@.len() ==> cfgs@[i]@ == parse_blocks(stdout@)[i]) && cfgs@.len()
                >= 1,
            Err(e) => !success && (e matches Error::Command(t) && t@ == stderr@),
        },
{
    if !success {
        return Err(Error::Command(String::from_str(stderr)));
    }
    Ok(parse_output(stdout))
}

/// A stream of two blocks of non-blank lines, separated by one blank line,
/// yields exactly the two blocks, each holding only its own lines.
pub proof fn lemma_two_blocks(a: Seq<Seq<char>>, b: Seq<Seq<char>>)
    requires
        forall|i: int| 0 <= i < a.len() ==> a[i].len() > 0,
        forall|i: int| 0 <= i < b.len() ==> b[i].len() > 0,
    ensures
        split_blocks(a + seq![Seq::<char>::empty()] + b) == seq![a, b],
{
    lemma_single_block(a);
    let xs = a + seq![Seq::<char>::empty()];
    assert(xs.drop_last() =~= a);
    assert(xs.last().len() == 0);
    assert(split_blocks(xs) =~~= seq![a, Seq::<Seq<char>>::empty()]);
    lemma_extend_last_block(xs, b);
    assert(Seq::<Seq<char>>::empty() + b =~= b);
    assert(split_blocks(xs + b) =~~= seq![a, b]);
}

/// Lines without any blank among them form a single block.
pub proof fn lemma_single_block(lines: Seq<Seq<char>>)
    requires
        forall|i: int| 0 <= i < lines.len() ==> lines[i].len() > 0,
    ensures
        split_blocks(lines) == seq![lines],
    decreases lines.len(),
{
    if lines.len() == 0 {
        assert(split_blocks(lines) =~~= seq![lines]);
    } else {
        lemma_single_block(lines.drop_last());
        let prev = split_blocks(lines.drop_last());
        assert(prev == seq![lines.drop_last()]);
        assert(prev.len() == 1);
        assert(lines.last().len() > 0);
        assert(split_blocks(lines) == prev.update(0, prev.last().push(lines.last())));
        assert(prev.last() == lines.drop_last());
        assert(lines.drop_last().push(lines.last()) =~= lines);
        assert(split_blocks(lines).len() == 1);
        assert(split_blocks(lines)[0] == lines);
        assert(seq![lines].len() == 1);
        assert(seq![lines][0] == lines);
        assert(split_blocks(lines) =~~= seq![lines]);
    }
}

/// Appending lines without any blank among them extends the last block and
/// leaves the earlier blocks alone.
pub proof fn lemma_extend_last_block(xs: Seq<Seq<char>>, ys: Seq<Seq<char>>)
    requires
        forall|i: int| 0 <= i < ys.len() ==> ys[i].len() > 0,
    ensures
        split_blocks(xs + ys) == split_blocks(xs).update(
            split_blocks(xs).len() - 1,
            split_blocks(xs).last() + ys,
        ),
    decreases ys.len(),
{
    lemma_split_blocks_len(xs);
    if ys.len() == 0 {
        assert(xs + ys =~= xs);
        assert(split_blocks(xs).last() + ys =~= split_blocks(xs).last());
        assert(split_blocks(xs).update(
            split_blocks(xs).len() - 1,
            split_blocks(xs).last() + ys,
        ) =~= split_blocks(xs));
    } else {
        lemma_extend_last_block(xs, ys.drop_last());
        let b = split_blocks(xs);
        let prev = split_blocks(xs + ys.drop_last());
        assert(prev == b.update(b.len() - 1, b.last() + ys.drop_last()));
        assert(prev.len() == b.len());
        assert(prev.last() == b.last() + ys.drop_last());
        assert((xs + ys).len() > 0);
        assert((xs + ys).drop_last() =~= xs + ys.drop_last());
        assert((xs + ys).last() == ys.last());
        assert(ys.last().len() > 0);
        assert(split_blocks(xs + ys) == prev.update(
            prev.len() - 1,
            prev.last().push(ys.last()),
        ));
        assert((b.last() + ys.drop_last()).push(ys.last()) =~= b.last() + ys);
        assert(split_blocks(xs + ys) =~= b.update(b.len() - 1, b.last() + ys));
    }
}

} // verus!
