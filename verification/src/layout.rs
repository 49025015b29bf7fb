//! The layout of the input file header.
//!
//! The header is a fixed list of lines, joined by line feeds, with no line
//! feed after the last one.  Field values are written as they are: nothing is
//! quoted or escaped, so a value that holds a line feed goes on in a line of
//! its own making.

use crate::decimal::{decimal_int, decimal_nat, lemma_decimal_alphabet, lemma_decimal_digits};
use crate::gaussian::ConfigView;
use crate::lines::{
    has_later_line, has_line, is_line_word, join_lines, joined_line_reads_at,
    lemma_join_lines_concat, lemma_join_lines_line_reads, lemma_prefixed_line_reads, line_feed,
    line_offset, line_reads_at, reads_at,
};
use vstd::prelude::*;

verus! {

/// The line that sets the memory.
pub open spec fn mem_line(config: ConfigView) -> Seq<char> {
    "%Mem="@ + config.mem
}

/// The line that sets the processors.
pub open spec fn cpu_line(config: ConfigView) -> Seq<char> {
    "%Cpu="@ + config.cpu
}

/// The line that assigns GPUs to processors.
pub open spec fn gpu_line(gpu: Seq<char>) -> Seq<char> {
    "%Gpu="@ + gpu
}

/// The line that names the checkpoint file.
pub open spec fn check_line(config: ConfigView) -> Seq<char> {
    "%Check="@ + config.checkpoint
}

/// The route line: the keywords as they are.
pub open spec fn route_line(config: ConfigView) -> Seq<char> {
    config.key_words
}

/// The title line: one space, then the title.
pub open spec fn title_line(config: ConfigView) -> Seq<char> {
    " "@ + config.title
}

/// The last line: charge and multiplicity in decimal, one space between.
pub open spec fn charge_line(config: ConfigView) -> Seq<char> {
    decimal_int(config.charge) + " "@ + decimal_nat(config.multiplicity)
}

/// The lines that open every header: memory, then processors.
pub open spec fn head_lines(config: ConfigView) -> Seq<Seq<char>> {
    seq![mem_line(config), cpu_line(config)]
}

/// The lines that close every header: checkpoint, route, and title and
/// charge with an empty line before each.
pub open spec fn tail_lines(config: ConfigView) -> Seq<Seq<char>> {
    seq![
        check_line(config),
        route_line(config),
        Seq::empty(),
        title_line(config),
        Seq::empty(),
        charge_line(config),
    ]
}

/// The lines of the header of a job that runs on processors alone.
pub open spec fn cpu_lines(config: ConfigView) -> Seq<Seq<char>> {
    head_lines(config) + tail_lines(config)
}

/// The lines of the header of a job that uses GPUs: those of a processor
/// job, and the GPU line right after the processor line.
pub open spec fn gpu_lines(config: ConfigView, gpu: Seq<char>) -> Seq<Seq<char>> {
    head_lines(config).push(gpu_line(gpu)) + tail_lines(config)
}

/// The header of a job that runs on processors alone.
pub open spec fn cpu_layout(config: ConfigView) -> Seq<char> {
    join_lines(cpu_lines(config))
}

/// The header of a job that uses the GPUs `gpu`.
pub open spec fn gpu_layout(config: ConfigView, gpu: Seq<char>) -> Seq<char> {
    join_lines(gpu_lines(config, gpu))
}

/// The header of a job: with a GPU line where the configuration assigns
/// GPUs, without one where it does not.  No other field has a say in that.
pub open spec fn rendered(config: ConfigView) -> Seq<char> {
    match config.gpu {
        Some(gpu) => gpu_layout(config, gpu),
        None => cpu_layout(config),
    }
}

/// What a GPU line begins with.
pub open spec fn gpu_word() -> Seq<char> {
    "%Gpu="@
}

/// Where the processor line begins in a header: behind the memory line and
/// its line feed.
pub open spec fn cpu_line_offset(config: ConfigView) -> int {
    (mem_line(config).len() + 1) as int
}

/// Where the GPU line begins in the header of a job that uses GPUs: behind
/// the processor line and its line feed.
pub open spec fn gpu_line_offset(config: ConfigView) -> int {
    cpu_line_offset(config) + cpu_line(config).len() + 1
}

/// A field value brings a GPU line of its own into the header.  The route
/// line is the keywords and nothing else, so these do it by beginning with
/// `%Gpu=`; any other value does it by a line feed with `%Gpu=` right after.
pub open spec fn brings_gpu_line(config: ConfigView) -> bool {
    ||| has_later_line(config.mem, gpu_word())
    ||| has_later_line(config.cpu, gpu_word())
    ||| has_later_line(config.checkpoint, gpu_word())
    ||| has_line(config.key_words, gpu_word())
    ||| has_later_line(config.title, gpu_word())
}

/// The processor header as one text, field values between fixed pieces.
pub proof fn lemma_cpu_layout_text(config: ConfigView)
    ensures
        cpu_layout(config) == "%Mem="@ + config.mem + "\n%Cpu="@ + config.cpu + "\n%Check="@
            + config.checkpoint + "\n"@ + config.key_words + "\n\n "@ + config.title + "\n\n"@
            + decimal_int(config.charge) + " "@ + decimal_nat(config.multiplicity),
{
    reveal_strlit("%Cpu=");
    reveal_strlit("%Check=");
    reveal_strlit(" ");
    reveal_strlit("\n%Cpu=");
    reveal_strlit("\n%Check=");
    reveal_strlit("\n");
    reveal_strlit("\n\n ");
    reveal_strlit("\n\n");
    reveal_with_fuel(join_lines, 9);
}

/// The GPU header as one text, field values between fixed pieces.
pub proof fn lemma_gpu_layout_text(config: ConfigView, gpu: Seq<char>)
    ensures
        gpu_layout(config, gpu) == "%Mem="@ + config.mem + "\n%Cpu="@ + config.cpu + "\n%Gpu="@
            + gpu + "\n%Check="@ + config.checkpoint + "\n"@ + config.key_words + "\n\n "@
            + config.title + "\n\n"@ + decimal_int(config.charge) + " "@ + decimal_nat(
            config.multiplicity,
        ),
{
    reveal_strlit("%Cpu=");
    reveal_strlit("%Gpu=");
    reveal_strlit("%Check=");
    reveal_strlit(" ");
    reveal_strlit("\n%Cpu=");
    reveal_strlit("\n%Gpu=");
    reveal_strlit("\n%Check=");
    reveal_strlit("\n");
    reveal_strlit("\n\n ");
    reveal_strlit("\n\n");
    reveal_with_fuel(join_lines, 10);
}

/// Rendering depends on the values of the record and on nothing else: two
/// records that hold the same values have the same header, character for
/// character and byte for byte, and so has one record rendered twice.
pub proof fn lemma_rendered_same(a: ConfigView, b: ConfigView)
    requires
        a.mem == b.mem,
        a.cpu == b.cpu,
        a.gpu == b.gpu,
        a.checkpoint == b.checkpoint,
        a.key_words == b.key_words,
        a.title == b.title,
        a.charge == b.charge,
        a.multiplicity == b.multiplicity,
    ensures
        rendered(a) == rendered(b),
        vstd::utf8::encode_utf8(rendered(a)) == vstd::utf8::encode_utf8(rendered(b)),
{
}

/// The two headers differ by the GPU line and by nothing else: both open
/// with the memory and processor lines and close with the same six lines,
/// and the GPU header has its GPU line between the two.
pub proof fn lemma_gpu_line_inserted(config: ConfigView, gpu: Seq<char>)
    ensures
        cpu_layout(config) == join_lines(head_lines(config)) + line_feed() + join_lines(
            tail_lines(config),
        ),
        gpu_layout(config, gpu) == join_lines(head_lines(config)) + line_feed() + gpu_line(gpu)
            + line_feed() + join_lines(tail_lines(config)),
        join_lines(head_lines(config)).len() + 1 == gpu_line_offset(config),
{
    let head = head_lines(config);
    let tail = tail_lines(config);
    lemma_join_lines_concat(head, tail);
    lemma_join_lines_concat(head.push(gpu_line(gpu)), tail);
    assert(head.push(gpu_line(gpu)).drop_last() =~= head);
    reveal_with_fuel(join_lines, 3);
    assert(head.drop_last() =~= seq![mem_line(config)]);
}

// What `gpu_word` is made of.
proof fn lemma_gpu_word()
    ensures
        is_line_word(gpu_word()),
        gpu_word().len() == 5,
        gpu_word()[0] == '%',
        gpu_word()[1] == 'G',
{
    reveal_strlit("%Gpu=");
}

// Where a line of each kind begins with `%Gpu=`: a line with a fixed
// beginning inside its value only, a GPU line also at its own beginning, the
// empty line and the charge line nowhere.
proof fn lemma_gpu_word_in_lines(config: ConfigView, gpu: Seq<char>, at: int)
    ensures
        line_reads_at(mem_line(config), gpu_word(), at) <==> at > 5 && line_reads_at(
            config.mem,
            gpu_word(),
            at - 5,
        ),
        line_reads_at(cpu_line(config), gpu_word(), at) <==> at > 5 && line_reads_at(
            config.cpu,
            gpu_word(),
            at - 5,
        ),
        line_reads_at(gpu_line(gpu), gpu_word(), at) <==> at == 0 || (at > 5 && line_reads_at(
            gpu,
            gpu_word(),
            at - 5,
        )),
        line_reads_at(check_line(config), gpu_word(), at) <==> at > 7 && line_reads_at(
            config.checkpoint,
            gpu_word(),
            at - 7,
        ),
        line_reads_at(title_line(config), gpu_word(), at) <==> at > 1 && line_reads_at(
            config.title,
            gpu_word(),
            at - 1,
        ),
        !line_reads_at(Seq::empty(), gpu_word(), at),
        !line_reads_at(charge_line(config), gpu_word(), at),
{
    let word = gpu_word();
    reveal_strlit("%Mem=");
    reveal_strlit("%Cpu=");
    reveal_strlit("%Gpu=");
    reveal_strlit("%Check=");
    reveal_strlit(" ");
    lemma_prefixed_line_reads("%Mem="@, config.mem, word, 1, at);
    lemma_prefixed_line_reads("%Cpu="@, config.cpu, word, 1, at);
    lemma_prefixed_line_reads("%Check="@, config.checkpoint, word, 1, at);
    lemma_prefixed_line_reads(" "@, config.title, word, 0, at);

    // A GPU line begins with the word, and for the rest it is a line with a
    // fixed beginning like the others.
    let line = gpu_line(gpu);
    if at == 0 {
        assert(line.subrange(0, 5) =~= word);
    } else {
        if line_reads_at(line, word, at) {
            if at <= 5 {
                assert(line[at - 1] == word[at - 1]);
            }
            assert(gpu.subrange(at - 5, at) =~= line.subrange(at, at + 5));
        }
        if at > 5 && line_reads_at(gpu, word, at - 5) {
            assert(line.subrange(at, at + 5) =~= gpu.subrange(at - 5, at));
        }
    }

    // A number has no percent sign in it, and neither has a space.
    let last = charge_line(config);
    if line_reads_at(last, word, at) {
        lemma_decimal_alphabet(config.charge);
        lemma_decimal_digits(config.multiplicity);
        assert(last.subrange(at, at + 5)[0] == '%');
        let sign = decimal_int(config.charge).len();
        if at < sign {
            assert(last[at] == decimal_int(config.charge)[at]);
        } else if at > sign {
            assert(last[at] == decimal_nat(config.multiplicity)[at - sign - 1]);
        }
    }
}

/// The header of a processor job has a GPU line exactly where a field value
/// brings one.  A job without GPUs whose values bring none has no GPU line.
pub proof fn lemma_cpu_layout_gpu_line(config: ConfigView)
    ensures
        has_line(cpu_layout(config), gpu_word()) <==> brings_gpu_line(config),
{
    let word = gpu_word();
    let lines = cpu_lines(config);
    let text = cpu_layout(config);
    lemma_gpu_word();
    reveal_with_fuel(line_offset, 9);
    if has_line(text, word) {
        let at = choose|at: int| line_reads_at(text, word, at);
        lemma_join_lines_line_reads(lines, word, at);
        let k = choose|k: int| joined_line_reads_at(lines, k, word, at);
        let inside = at - line_offset(lines, k);
        lemma_gpu_word_in_lines(config, Seq::empty(), inside);
        assert(line_reads_at(lines[k], word, inside));
        if k == 0 {
            assert(line_reads_at(config.mem, word, inside - 5));
        } else if k == 1 {
            assert(line_reads_at(config.cpu, word, inside - 5));
        } else if k == 2 {
            assert(line_reads_at(config.checkpoint, word, inside - 7));
        } else if k == 3 {
            assert(line_reads_at(config.key_words, word, inside));
        } else if k == 5 {
            assert(line_reads_at(config.title, word, inside - 1));
        }
        assert(brings_gpu_line(config));
    }
    if brings_gpu_line(config) {
        let (k, inside): (int, int) = if has_later_line(config.mem, word) {
            (0, 5 + choose|p: int| p > 0 && line_reads_at(config.mem, word, p))
        } else if has_later_line(config.cpu, word) {
            (1, 5 + choose|p: int| p > 0 && line_reads_at(config.cpu, word, p))
        } else if has_later_line(config.checkpoint, word) {
            (2, 7 + choose|p: int| p > 0 && line_reads_at(config.checkpoint, word, p))
        } else if has_line(config.key_words, word) {
            (3, choose|p: int| line_reads_at(config.key_words, word, p))
        } else {
            (5, 1 + choose|p: int| p > 0 && line_reads_at(config.title, word, p))
        };
        lemma_gpu_word_in_lines(config, Seq::empty(), inside);
        let at = line_offset(lines, k) + inside;
        assert(joined_line_reads_at(lines, k, word, at));
        lemma_join_lines_line_reads(lines, word, at);
        assert(line_reads_at(text, word, at));
    }
}

/// The header of a job that uses GPUs has its GPU line right behind the
/// processor line, and the checkpoint line right behind that: the three
/// stand in a row, each with its line feed.  The header has no other GPU
/// line exactly where no field value brings one, the GPU assignment
/// included.
pub proof fn lemma_gpu_layout_gpu_line(config: ConfigView, gpu: Seq<char>)
    ensures
        line_reads_at(gpu_layout(config, gpu), gpu_word(), gpu_line_offset(config)),
        reads_at(
            gpu_layout(config, gpu),
            cpu_line(config) + line_feed() + gpu_line(gpu) + line_feed() + check_line(config)
                + line_feed(),
            cpu_line_offset(config),
        ),
        (forall|at: int|
            line_reads_at(gpu_layout(config, gpu), gpu_word(), at) ==> at == gpu_line_offset(
                config,
            )) <==> !brings_gpu_line(config) && !has_later_line(gpu, gpu_word()),
{
    let word = gpu_word();
    let lines = gpu_lines(config, gpu);
    let text = gpu_layout(config, gpu);
    let here = gpu_line_offset(config);
    lemma_gpu_word();
    reveal_with_fuel(line_offset, 10);
    assert(line_offset(lines, 2) == here);

    lemma_gpu_word_in_lines(config, gpu, 0);
    assert(joined_line_reads_at(lines, 2, word, here));
    lemma_join_lines_line_reads(lines, word, here);

    assert(reads_at(
        text,
        cpu_line(config) + line_feed() + gpu_line(gpu) + line_feed() + check_line(config)
            + line_feed(),
        cpu_line_offset(config),
    )) by {
        let row = cpu_line(config) + line_feed() + gpu_line(gpu) + line_feed() + check_line(
            config,
        ) + line_feed();
        let from = cpu_line_offset(config);
        reveal_with_fuel(join_lines, 10);
        assert(text.subrange(from, from + row.len()) =~= row);
    }

    if !brings_gpu_line(config) && !has_later_line(gpu, word) {
        assert forall|at: int| line_reads_at(text, word, at) implies at == here by {
            lemma_join_lines_line_reads(lines, word, at);
            let k = choose|k: int| joined_line_reads_at(lines, k, word, at);
            let inside = at - line_offset(lines, k);
            lemma_gpu_word_in_lines(config, gpu, inside);
            assert(line_reads_at(lines[k], word, inside));
            if k == 0 {
                assert(line_reads_at(config.mem, word, inside - 5));
            } else if k == 1 {
                assert(line_reads_at(config.cpu, word, inside - 5));
            } else if k == 2 {
                if inside != 0 {
                    assert(line_reads_at(gpu, word, inside - 5));
                }
            } else if k == 3 {
                assert(line_reads_at(config.checkpoint, word, inside - 7));
            } else if k == 4 {
                assert(line_reads_at(config.key_words, word, inside));
            } else if k == 6 {
                assert(line_reads_at(config.title, word, inside - 1));
            }
        }
    } else {
        // The value that brings a GPU line puts it somewhere else.
        let (k, inside): (int, int) = if has_later_line(config.mem, word) {
            (0, 5 + choose|p: int| p > 0 && line_reads_at(config.mem, word, p))
        } else if has_later_line(config.cpu, word) {
            (1, 5 + choose|p: int| p > 0 && line_reads_at(config.cpu, word, p))
        } else if has_later_line(gpu, word) {
            (2, 5 + choose|p: int| p > 0 && line_reads_at(gpu, word, p))
        } else if has_later_line(config.checkpoint, word) {
            (3, 7 + choose|p: int| p > 0 && line_reads_at(config.checkpoint, word, p))
        } else if has_line(config.key_words, word) {
            (4, choose|p: int| line_reads_at(config.key_words, word, p))
        } else {
            (6, 1 + choose|p: int| p > 0 && line_reads_at(config.title, word, p))
        };
        lemma_gpu_word_in_lines(config, gpu, inside);
        let at = line_offset(lines, k) + inside;
        assert(joined_line_reads_at(lines, k, word, at));
        lemma_join_lines_line_reads(lines, word, at);
        assert(line_reads_at(text, word, at));
        assert(at != here);
    }
}

/// A job without GPUs has no GPU line in its header, unless a field value
/// brings one.
pub proof fn lemma_rendered_without_gpu(config: ConfigView)
    requires
        config.gpu is None,
        !brings_gpu_line(config),
    ensures
        !has_line(rendered(config), gpu_word()),
{
    lemma_cpu_layout_gpu_line(config);
}

/// A job with GPUs has one GPU line in its header and no more, unless a
/// field value brings another: the line that assigns the GPUs, between the
/// processor line and the checkpoint line.
pub proof fn lemma_rendered_with_gpu(config: ConfigView)
    requires
        config.gpu is Some,
        !brings_gpu_line(config),
        !has_later_line(config.gpu->0, gpu_word()),
    ensures
        forall|at: int|
            line_reads_at(rendered(config), gpu_word(), at) <==> at == gpu_line_offset(config),
        reads_at(
            rendered(config),
            cpu_line(config) + line_feed() + gpu_line(config.gpu->0) + line_feed() + check_line(
                config,
            ) + line_feed(),
            cpu_line_offset(config),
        ),
{
    lemma_gpu_layout_gpu_line(config, config.gpu->0);
}

} // verus!
