//! Resolution of a run's configuration: where bytes come from, where they
//! go, and how the destination specification is decomposed into paths.
//!
//! A destination specification is a single string holding one or more
//! paths separated by `;`. An empty input path stands for standard input
//! and an empty output specification stands for standard output.

use vstd::prelude::*;

verus! {

/// A run's configuration, as the surrounding command-line glue supplies
/// it: the quiet flag, the source path (empty for standard input), the
/// destination specification (empty for standard output), and the
/// transfer-buffer size.
pub struct Config {
    /// Suppress all progress output.
    pub quiet: bool,
    /// The source path; empty selects standard input.
    pub input: String,
    /// The destination specification; empty selects standard output.
    pub output: String,
    /// The transfer-buffer size in bytes; must be positive to be usable.
    pub blocksize: usize,
}

impl Config {
    /// A configuration is usable when its block size is positive; the
    /// buffer it sizes could not otherwise make progress.
    pub open spec fn valid(self) -> bool {
        self.blocksize > 0
    }

    /// Whether this configuration can drive a run.
    pub fn is_valid(&self) -> (b: bool)
        ensures
            b == self.valid(),
    {
        self.blocksize > 0
    }
}

impl Default for Config {
    /// Progress shown, standard input to standard output, and the
    /// default block size.
    fn default() -> (c: Self)
        ensures
            !c.quiet,
            c.input@ == Seq::<char>::empty(),
            c.output@ == Seq::<char>::empty(),
            c.blocksize == crate::engine::DEFAULT_BLOCKSIZE,
            c.valid(),
    {
        Config {
            quiet: false,
            input: String::new(),
            output: String::new(),
            blocksize: crate::engine::DEFAULT_BLOCKSIZE,
        }
    }
}

/// Where the bytes of a run come from.
#[derive(PartialEq, Eq, Structural, Debug, Clone, Copy)]
pub enum SourceKind {
    /// The process's standard input stream.
    Stdin,
    /// A named file.
    File,
}

/// Where the bytes of a run go.
#[derive(PartialEq, Eq, Structural, Debug, Clone, Copy)]
pub enum SinkKind {
    /// The process's standard output stream.
    Stdout,
    /// One or more named files, written in lockstep.
    Files,
}

/// An empty input path selects standard input; anything else names a file.
pub fn source_kind(input: &str) -> (k: SourceKind)
    ensures
        k == (if input@.len() == 0 { SourceKind::Stdin } else { SourceKind::File }),
{
    if input.unicode_len() == 0 {
        SourceKind::Stdin
    } else {
        SourceKind::File
    }
}

/// An empty output specification selects standard output; anything else
/// names a `;`-separated list of destination files.
pub fn sink_kind(output: &str) -> (k: SinkKind)
    ensures
        k == (if output@.len() == 0 { SinkKind::Stdout } else { SinkKind::Files }),
{
    if output.unicode_len() == 0 {
        SinkKind::Stdout
    } else {
        SinkKind::Files
    }
}

/// The string formed by interleaving the given parts with `sep`.
pub open spec fn join_with(parts: Seq<Seq<char>>, sep: char) -> Seq<char>
    decreases parts.len(),
{
    if parts.len() == 0 {
        Seq::empty()
    } else if parts.len() == 1 {
        parts[0]
    } else {
        parts[0] + seq![sep] + join_with(parts.drop_first(), sep)
    }
}

proof fn lemma_join_push(parts: Seq<Seq<char>>, q: Seq<char>, sep: char)
    ensures
        join_with(parts.push(q), sep) == if parts.len() == 0 {
            q
        } else {
            (join_with(parts, sep) + seq![sep] + q)
        },
    decreases parts.len(),
{
    if parts.len() == 0 {
        assert(parts.push(q) =~= seq![q]);
    } else {
        assert(parts.push(q).drop_first() =~= parts.drop_first().push(q));
        lemma_join_push(parts.drop_first(), q, sep);
        if parts.len() > 1 {
            assert(join_with(parts, sep) + seq![sep] + q =~= parts[0] + seq![sep] + (join_with(
                parts.drop_first(),
                sep,
            ) + seq![sep] + q));
        }
    }
}

/// Decompose a destination specification into its `;`-separated paths.
///
/// The result is the unique sequence of separator-free pieces whose
/// interleaving with `;` restores the specification; a specification
/// without separators yields itself as the single path.
pub fn split_outputs(outputs: &str) -> (r: Vec<String>)
    ensures
        r@.len() >= 1,
        join_with(r@.map_values(|p: String| p@), ';') == outputs@,
        forall|i: int| 0 <= i < r@.len() ==> !(#[trigger] r@[i]@).contains(';'),
{
    let len = outputs.unicode_len();
    let mut r: Vec<String> = Vec::new();
    let mut start: usize = 0;
    let mut i: usize = 0;
    while i < len
        invariant
            start <= i <= len,
            len as nat == outputs@.len(),
            join_with(
                r@.map_values(|p: String| p@).push(outputs@.subrange(start as int, i as int)),
                ';',
            ) == outputs@.take(i as int),
            forall|j: int| 0 <= j < r@.len() ==> !(#[trigger] r@[j]@).contains(';'),
            forall|j: int| start <= j < i ==> outputs@[j] != ';',
        decreases len - i,
    {
        let c = outputs.get_char(i);
        if c == ';' {
            let piece = outputs.substring_char(start, i).to_owned();
            let ghost done = r@.map_values(|p: String| p@);
            let ghost cur = outputs@.subrange(start as int, i as int);
            r.push(piece);
            proof {
                assert(r@.map_values(|p: String| p@) =~= done.push(cur));
                assert(!cur.contains(';')) by {
                    assert forall|k: int| 0 <= k < cur.len() implies cur[k] != ';' by {
                        assert(cur[k] == outputs@[start + k]);
                    }
                }
                lemma_join_push(done.push(cur), Seq::<char>::empty(), ';');
                assert(outputs@.subrange(i as int + 1, i as int + 1) =~= Seq::<char>::empty());
                assert(join_with(done.push(cur), ';') + seq![';'] + Seq::<char>::empty()
                    =~= outputs@.take(i as int) + seq![';']);
                assert(outputs@.take(i as int + 1) =~= outputs@.take(i as int) + seq![';']);
            }
            start = i + 1;
        } else {
            proof {
                let done = r@.map_values(|p: String| p@);
                let cur = outputs@.subrange(start as int, i as int);
                let cur2 = outputs@.subrange(start as int, i as int + 1);
                lemma_join_push(done, cur, ';');
                lemma_join_push(done, cur2, ';');
                assert(cur2 =~= cur + seq![outputs@[i as int]]);
                if done.len() == 0 {
                    assert(join_with(done.push(cur2), ';') =~= outputs@.take(i as int + 1));
                } else {
                    assert(join_with(done, ';') + seq![';'] + cur2 =~= (join_with(done, ';')
                        + seq![';'] + cur) + seq![outputs@[i as int]]);
                    assert(outputs@.take(i as int + 1) =~= outputs@.take(i as int) + seq![
                        outputs@[i as int],
                    ]);
                }
            }
        }
        i = i + 1;
    }
    let piece = outputs.substring_char(start, len).to_owned();
    let ghost done = r@.map_values(|p: String| p@);
    let ghost cur = outputs@.subrange(start as int, len as int);
    r.push(piece);
    proof {
        assert(r@.map_values(|p: String| p@) =~= done.push(cur));
        assert(!cur.contains(';')) by {
            assert forall|k: int| 0 <= k < cur.len() implies cur[k] != ';' by {
                assert(cur[k] == outputs@[start + k]);
            }
        }
        assert(outputs@.take(len as int) =~= outputs@);
    }
    r
}

} // verus!
