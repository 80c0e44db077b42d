//! Output-path derivation, the one policy shared by every transformation:
//! the output file is `{input_stem}_{suffix}.dxf`, written beside the input
//! file, or into the directory named by the `output_path` parameter when
//! that parameter is present and non-empty.

use vstd::prelude::*;
use vstd::string::StrSliceExecFns;
use vstd::string::StringExecFns;

verus! {

/// Whether the character separates path components.
pub open spec fn is_sep(c: char) -> bool {
    c == '/' || c == '\\'
}

/// The index where the input's file name begins: just past the last
/// separator, or zero when there is none.
pub open spec fn fname_start(s: Seq<char>) -> int
    decreases s.len(),
{
    if s.len() == 0 {
        0
    } else if is_sep(s.last()) {
        s.len() as int
    } else {
        fname_start(s.drop_last())
    }
}

/// The length of the file name's stem: everything before the last `.`, save
/// that a leading dot never begins an extension; a name without an embedded
/// dot is all stem.
pub open spec fn stem_end(name: Seq<char>) -> int
    decreases name.len(),
{
    if name.len() <= 1 {
        name.len() as int
    } else if name.last() == '.' {
        name.len() - 1
    } else {
        let e = stem_end(name.drop_last());
        if e == name.len() - 1 {
            name.len() as int
        } else {
            e
        }
    }
}

/// The output file name derived from a file name: stem, underscore, the
/// transformation's suffix, and the drawing extension.
pub open spec fn spec_derived_name(name: Seq<char>, suffix: Seq<char>) -> Seq<char> {
    name.take(stem_end(name)) + "_"@ + suffix + ".dxf"@
}

/// The derived output path: in the given directory when one is given and
/// non-empty, else beside the input.
pub open spec fn spec_output_path(input: Seq<char>, dir: Option<Seq<char>>, suffix: Seq<char>) -> Seq<
    char,
> {
    let name = input.skip(fname_start(input));
    match dir {
        Some(d) => if d.len() == 0 {
            input.take(fname_start(input)) + spec_derived_name(name, suffix)
        } else {
            d + (if is_sep(d.last()) {
                Seq::<char>::empty()
            } else {
                "/"@
            }) + spec_derived_name(name, suffix)
        },
        None => input.take(fname_start(input)) + spec_derived_name(name, suffix),
    }
}

/// The view of an optional directory override.
pub open spec fn spec_opt_str(dir: Option<String>) -> Option<Seq<char>> {
    match dir {
        Some(d) => Some(d@),
        None => None,
    }
}

pub proof fn lemma_fname_start_bounds(s: Seq<char>)
    ensures
        0 <= fname_start(s) <= s.len(),
    decreases s.len(),
{
    if s.len() > 0 && !is_sep(s.last()) {
        lemma_fname_start_bounds(s.drop_last());
    }
}

pub proof fn lemma_stem_end_bounds(name: Seq<char>)
    ensures
        0 <= stem_end(name) <= name.len(),
    decreases name.len(),
{
    if name.len() > 1 && name.last() != '.' {
        lemma_stem_end_bounds(name.drop_last());
    }
}

/// The stem ends at the last embedded dot: where the stem ends short of the
/// name, a dot stands, and every embedded dot lies at or before it; a name
/// with no embedded dot is all stem.
pub proof fn lemma_stem_end_char(name: Seq<char>)
    ensures
        stem_end(name) == name.len() || (1 <= stem_end(name) < name.len() && name[stem_end(name)]
            == '.'),
        forall|j: int|
            1 <= j < name.len() && name[j] == '.' ==> j <= stem_end(name) && stem_end(name)
                < name.len(),
    decreases name.len(),
{
    lemma_stem_end_bounds(name);
    if name.len() > 1 && name.last() != '.' {
        lemma_stem_end_char(name.drop_last());
        lemma_stem_end_bounds(name.drop_last());
        assert(forall|j: int| 0 <= j < name.len() - 1 ==> name[j] == name.drop_last()[j]);
    }
}

fn find_fname_start(s: &str) -> (r: usize)
    ensures
        r as int == fname_start(s@),
{
    let n = s.unicode_len();
    let mut i: usize = n;
    proof {
        assert(s@.take(n as int) =~= s@);
    }
    while i > 0
        invariant
            i <= n,
            n == s@.len(),
            fname_start(s@) == fname_start(s@.take(i as int)),
        decreases i,
    {
        let c = s.get_char(i - 1);
        if c == '/' || c == '\\' {
            proof {
                assert(s@.take(i as int).last() == s@[i - 1]);
            }
            return i;
        }
        proof {
            assert(s@.take(i as int).drop_last() =~= s@.take(i - 1));
        }
        i -= 1;
    }
    0
}

fn find_stem_end(name: &str) -> (r: usize)
    ensures
        r as int == stem_end(name@),
{
    let n = name.unicode_len();
    if n <= 1 {
        return n;
    }
    proof {
        lemma_stem_end_char(name@);
    }
    let mut i: usize = n;
    while i > 1
        invariant
            1 <= i <= n,
            n == name@.len(),
            n >= 2,
            forall|j: int| i <= j < n ==> name@[j] != '.',
        decreases i,
    {
        if name.get_char(i - 1) == '.' {
            proof {
                lemma_stem_end_char(name@);
                assert(stem_end(name@) == i - 1) by {
                    assert(i - 1 <= stem_end(name@) && stem_end(name@) < n);
                    if stem_end(name@) > i - 1 {
                        assert(name@[stem_end(name@)] != '.');
                    }
                }
            }
            return i - 1;
        }
        i -= 1;
    }
    proof {
        lemma_stem_end_char(name@);
        if stem_end(name@) < n {
            assert(name@[stem_end(name@)] == '.');
            assert(false);
        }
    }
    n
}

/// Derives the output path from the input path, the optional directory
/// override, and the transformation's suffix.
pub fn derive_output_path(input_path: &str, output_dir: &Option<String>, suffix: &str) -> (r:
    String)
    ensures
        r@ == spec_output_path(input_path@, spec_opt_str(*output_dir), suffix@),
{
    proof {
        lemma_fname_start_bounds(input_path@);
    }
    let n = input_path.unicode_len();
    let fs = find_fname_start(input_path);
    let name = input_path.substring_char(fs, n);
    proof {
        assert(name@ =~= input_path@.skip(fs as int));
        lemma_stem_end_bounds(name@);
    }
    let se = find_stem_end(name);
    let stem = name.substring_char(0, se);
    proof {
        assert(stem@ =~= name@.take(se as int));
    }
    let mut derived = stem.to_owned();
    derived.append("_");
    derived.append(suffix);
    derived.append(".dxf");

    let mut out: String;
    match output_dir {
        Some(d) => {
            let dlen = d.as_str().unicode_len();
            if dlen > 0 {
                out = d.clone();
                let lc = d.as_str().get_char(dlen - 1);
                if !(lc == '/' || lc == '\\') {
                    out.append("/");
                } else {
                    proof {
                        assert(out@ + Seq::<char>::empty() =~= out@);
                    }
                }
                out.append(derived.as_str());
            } else {
                out = input_path.substring_char(0, fs).to_owned();
                out.append(derived.as_str());
            }
        },
        None => {
            out = input_path.substring_char(0, fs).to_owned();
            out.append(derived.as_str());
        },
    }
    proof {
        assert(out@ =~= spec_output_path(input_path@, spec_opt_str(*output_dir), suffix@));
    }
    out
}

} // verus!
