//! Where each converted file is written.

use std::path::PathBuf;
use vstd::prelude::*;
use vstd::string::*;
use vstd::utf8::*;
use crate::path;
use crate::path::{copy_path, file_stem, join_text, parent, path_from, path_text, same_path};
use crate::text;
use crate::text::decimal_text;
use crate::text_laws;

verus! {

/// What stands behind the stem in the `n`-th name that is tried.
pub open spec fn tail(n: nat) -> Seq<char> {
    if n == 0 {
        ".ogg"@
    } else {
        " ("@ + text::decimal(n) + ").ogg"@
    }
}

/// The `n`-th path that is tried for a stem in a directory.
pub open spec fn candidate(dir: Seq<u8>, stem: Seq<char>, n: nat) -> Seq<u8> {
    path::joined(dir, encode_utf8(stem + tail(n)))
}

/// Whether a path is among those already given out.
pub open spec fn taken(used: Seq<Seq<u8>>, path: Seq<u8>) -> bool {
    exists|i: int| 0 <= i < used.len() && path::same(#[trigger] used[i], path)
}

/// Whether the `n`-th candidate is the first that is not given out yet.
pub open spec fn first_free(used: Seq<Seq<u8>>, dir: Seq<u8>, stem: Seq<char>, n: nat) -> bool {
    &&& !taken(used, candidate(dir, stem, n))
    &&& forall|m: nat| m < n ==> taken(used, #[trigger] candidate(dir, stem, m))
}

/// The directory that an input is converted into: the chosen one, or that of the input itself.
pub open spec fn target_dir(output_dir: Option<Seq<u8>>, input: Seq<u8>) -> Seq<u8> {
    match output_dir {
        Some(dir) => dir,
        None => match path::parent_of(input) {
            Some(dir) => dir,
            None => encode_utf8("."@),
        },
    }
}

/// The stem that an input's output is named by.
pub open spec fn stem_text(input: Seq<u8>) -> Seq<char> {
    match path::file_name_of(input) {
        Some(name) => match text::utf8_text(path::stem_of(name)) {
            Some(text) => text,
            None => "output"@,
        },
        None => "output"@,
    }
}

/// Whether `out` is what the input gets after the paths in `used` have been given out.
pub open spec fn output_for(
    output_dir: Option<Seq<u8>>,
    input: Seq<u8>,
    used: Seq<Seq<u8>>,
    out: Seq<u8>,
) -> bool {
    exists|n: nat|
        #![trigger candidate(target_dir(output_dir, input), stem_text(input), n)]
        first_free(used, target_dir(output_dir, input), stem_text(input), n) && out == candidate(
            target_dir(output_dir, input),
            stem_text(input),
            n,
        )
}

/// Whether `outputs` are the output paths of `inputs`: each input in turn gets its first
/// candidate that no input before it got.
pub open spec fn outputs_for(
    output_dir: Option<Seq<u8>>,
    inputs: Seq<Seq<u8>>,
    outputs: Seq<Seq<u8>>,
) -> bool {
    &&& outputs.len() == inputs.len()
    &&& forall|i: int|
        0 <= i < inputs.len() ==> output_for(
            output_dir,
            inputs[i],
            outputs.take(i),
            #[trigger] outputs[i],
        )
}

/// Whether an input's stem could, on Windows, be read as more than a part of a name: it starts
/// like a drive letter, or it was cut out of a verbatim path and holds a slash.
pub open spec fn stem_is_split(stem: Seq<char>) -> bool {
    !path::backslash_in_names() && (path::starts_like_drive(stem) || stem.contains('/'))
}

/// Whether a name joined to the directory that an input is converted into becomes its last
/// component. On Windows some directories that begin with two separators are read in another way
/// then; the directory of an input can be one of these only if the input begins so itself.
pub open spec fn target_takes_names(output_dir: Option<Seq<u8>>, input: Seq<u8>) -> bool {
    ||| !path::prefix_like(target_dir(output_dir, input))
    ||| output_dir is None && !path::starts_with_two_separators(input)
}

/// Whether `out` lies in the directory that `input` is converted into, under the input's stem
/// and one of the tails. The exceptions are Windows paths: stems that are more than a part of a
/// name there, and directories that are read in another way with a name behind them.
pub open spec fn lies_in_target(
    output_dir: Option<Seq<u8>>,
    input: Seq<u8>,
    out: Seq<u8>,
) -> bool {
    let stem = stem_text(input);
    !stem_is_split(stem) && target_takes_names(output_dir, input) ==> exists|n: nat|
        path::parts(out) == path::parts(target_dir(output_dir, input)).push(
            path::PathPart::Normal(encode_utf8(stem + #[trigger] tail(n))),
        )
}

/// Whether an output is named by its source, byte for byte: where the source's name without its
/// extension is text, the output's last component is that with `.ogg` behind it, unless this path
/// was given out before; then it still begins with the one and ends in the other. What stands
/// above is the directory that the source is converted into. The exceptions are those of
/// [`lies_in_target`].
pub open spec fn keeps_source_name(
    output_dir: Option<Seq<u8>>,
    input: Seq<u8>,
    used: Seq<Seq<u8>>,
    out: Seq<u8>,
) -> bool {
    path::file_name_of(input) matches Some(name) ==> ({
        let stem = path::stem_of(name);
        let dir = match output_dir {
            Some(dir) => dir,
            None => match path::parent_of(input) {
                Some(dir) => dir,
                None => encode_utf8("."@),
            },
        };
        let end = encode_utf8(".ogg"@);
        valid_utf8(stem) && !stem_is_split(decode_utf8(stem)) && target_takes_names(
            output_dir,
            input,
        ) ==> {
            &&& path::parts(out).len() > 0
            &&& path::parts(out).drop_last() == path::parts(dir)
            &&& path::parts(out).last() matches path::PathPart::Normal(last)
            &&& stem.is_prefix_of(last)
            &&& end.is_suffix_of(last)
            &&& (forall|i: int|
                0 <= i < used.len() ==> !path::same(
                    #[trigger] used[i],
                    path::joined(dir, stem + end),
                )) ==> last == stem + end
        }
    })
}

/// No two outputs are the same path: no conversion of a batch writes over another.
pub proof fn outputs_are_distinct(
    output_dir: Option<Seq<u8>>,
    inputs: Seq<Seq<u8>>,
    outputs: Seq<Seq<u8>>,
)
    requires
        outputs_for(output_dir, inputs, outputs),
    ensures
        forall|i: int, j: int|
            0 <= i < j < outputs.len() ==> !path::same(#[trigger] outputs[i], #[trigger] outputs[j]),
{
    assert forall|i: int, j: int| 0 <= i < j < outputs.len() implies !path::same(
        #[trigger] outputs[i],
        #[trigger] outputs[j],
    ) by {
        assert(output_for(output_dir, inputs[j], outputs.take(j), outputs[j]));
        assert(outputs.take(j)[i] == outputs[i]);
        assert(!taken(outputs.take(j), outputs[j]));
    }
}

/// The outputs are determined: the same inputs and directory give the same outputs.
pub proof fn outputs_are_determined(
    output_dir: Option<Seq<u8>>,
    inputs: Seq<Seq<u8>>,
    a: Seq<Seq<u8>>,
    b: Seq<Seq<u8>>,
)
    requires
        outputs_for(output_dir, inputs, a),
        outputs_for(output_dir, inputs, b),
    ensures
        a == b,
    decreases inputs.len(),
{
    if inputs.len() > 0 {
        let k = inputs.len() - 1;
        let shorter = inputs.drop_last();
        assert forall|i: int| 0 <= i < shorter.len() implies output_for(
            output_dir,
            shorter[i],
            a.drop_last().take(i),
            #[trigger] a.drop_last()[i],
        ) by {
            assert(a.drop_last()[i] == a[i]);
            assert(a.drop_last().take(i) =~= a.take(i));
        }
        assert forall|i: int| 0 <= i < shorter.len() implies output_for(
            output_dir,
            shorter[i],
            b.drop_last().take(i),
            #[trigger] b.drop_last()[i],
        ) by {
            assert(b.drop_last()[i] == b[i]);
            assert(b.drop_last().take(i) =~= b.take(i));
        }
        outputs_are_determined(output_dir, shorter, a.drop_last(), b.drop_last());
        assert(a.take(k) =~= a.drop_last());
        assert(b.take(k) =~= b.drop_last());
        let used = a.take(k);
        let dir = target_dir(output_dir, inputs[k]);
        let stem = stem_text(inputs[k]);
        assert(output_for(output_dir, inputs[k], used, a[k]));
        assert(output_for(output_dir, inputs[k], used, b[k]));
        let m = choose|n: nat|
            #![trigger candidate(dir, stem, n)]
            first_free(used, dir, stem, n) && a[k] == candidate(dir, stem, n);
        let n = choose|n: nat|
            #![trigger candidate(dir, stem, n)]
            first_free(used, dir, stem, n) && b[k] == candidate(dir, stem, n);
        if m < n {
            assert(taken(used, candidate(dir, stem, m)));
        } else if n < m {
            assert(taken(used, candidate(dir, stem, n)));
        }
        assert(a =~= a.drop_last().push(a[k]));
        assert(b =~= b.drop_last().push(b[k]));
    } else {
        assert(a =~= b);
    }
}

proof fn tail_is_plain(n: nat)
    ensures
        path::plain_tail(tail(n)),
{
    reveal_strlit(".ogg");
    reveal_strlit(" (");
    reveal_strlit(").ogg");
    if n > 0 {
        text::decimal_nonempty(n);
        let open = " ("@;
        let close = ").ogg"@;
        let t = tail(n);
        assert forall|i: int| 0 <= i < t.len() implies !path::is_path_mark(#[trigger] t[i]) by {
            if i < 2 {
                assert(t[i] == open[i]);
            } else if i < 2 + text::decimal(n).len() {
                assert(t[i] == text::decimal(n)[i - 2]);
            } else {
                assert(t[i] == close[i - 2 - text::decimal(n).len()]);
            }
        }
    }
}

proof fn tail_injective(a: nat, b: nat)
    requires
        tail(a) == tail(b),
    ensures
        a == b,
{
    reveal_strlit(".ogg");
    reveal_strlit(" (");
    reveal_strlit(").ogg");
    if a > 0 {
        assert(tail(a)[0] == ' ');
    } else {
        assert(tail(a)[0] == '.');
    }
    if b > 0 {
        assert(tail(b)[0] == ' ');
    } else {
        assert(tail(b)[0] == '.');
    }
    if a > 0 && b > 0 {
        assert(tail(a).subrange(2, tail(a).len() - 5) =~= text::decimal(a));
        assert(tail(b).subrange(2, tail(b).len() - 5) =~= text::decimal(b));
        text::decimal_injective(a, b);
    }
}

/// No more different paths than `used` holds can be taken.
proof fn taken_is_bounded(used: Seq<Seq<u8>>, paths: Seq<Seq<u8>>)
    requires
        forall|i: int| 0 <= i < paths.len() ==> taken(used, #[trigger] paths[i]),
        forall|i: int, j: int|
            0 <= i < j < paths.len() ==> !path::same(#[trigger] paths[i], #[trigger] paths[j]),
    ensures
        paths.len() <= used.len(),
    decreases paths.len(),
{
    if paths.len() > 0 {
        let last = paths.last();
        assert(taken(used, paths[paths.len() - 1]));
        let at = choose|i: int| 0 <= i < used.len() && path::same(#[trigger] used[i], last);
        let rest = used.remove(at);
        let shorter = paths.drop_last();
        assert forall|i: int| 0 <= i < shorter.len() implies taken(rest, #[trigger] shorter[i]) by {
            assert(shorter[i] == paths[i]);
            assert(taken(used, paths[i]));
            let k = choose|k: int| 0 <= k < used.len() && path::same(#[trigger] used[k], paths[i]);
            assert(!path::same(paths[i], paths[paths.len() - 1]));
            assert(k != at);
            if k < at {
                assert(rest[k] == used[k]);
            } else {
                assert(rest[k - 1] == used[k]);
            }
        }
        taken_is_bounded(rest, shorter);
    }
}

/// Whether a stem with a tail behind it is one name, as far as separators go.
spec fn is_stem(stem: Seq<char>) -> bool {
    stem_is_split(stem) || (!stem.contains('/') && (path::backslash_in_names() || !stem.contains(
        '\\',
    )))
}

proof fn output_is_stem()
    ensures
        is_stem("output"@),
{
    reveal_strlit("output");
}

proof fn stem_with_tail_is_plain(stem: Seq<char>, n: nat)
    requires
        is_stem(stem),
        !stem_is_split(stem),
    ensures
        path::plain_name(stem + tail(n)),
{
    let whole = stem + tail(n);
    tail_is_plain(n);
    assert(whole.len() > 2);
    assert forall|i: int| 0 <= i < whole.len() implies #[trigger] whole[i] != '/' && (
    path::backslash_in_names() || whole[i] != '\\') by {
        if i < stem.len() {
            assert(whole[i] == stem[i]);
            assert(stem.contains(stem[i]));
        } else {
            assert(whole[i] == tail(n)[i - stem.len()]);
        }
    }
    assert(whole.len() != seq!['.'].len() && whole.len() != seq!['.', '.'].len());
    if path::starts_like_drive(whole) {
        if stem.len() >= 2 {
            assert(whole[1] == stem[1]);
        } else {
            assert(whole[1] == tail(n)[1 - stem.len()]);
        }
    }
}

/// The stem that the output of `input` is named by.
fn output_stem(input: &PathBuf) -> (stem: String)
    ensures
        stem@ == stem_text(path::path_bytes(*input)),
        is_stem(stem@),
{
    proof {
        output_is_stem();
    }
    match file_stem(input) {
        Some(stem) => match path_text(&stem) {
            Some(text) => text,
            None => "output".to_owned(),
        },
        None => "output".to_owned(),
    }
}

/// The directory that `input` is converted into.
fn output_dir_for(output_dir: &Option<PathBuf>, input: &PathBuf) -> (dir: PathBuf)
    ensures
        path::path_bytes(dir) == target_dir(path::option_bytes(*output_dir), path::path_bytes(*input)),
        target_takes_names(path::option_bytes(*output_dir), path::path_bytes(*input))
            == !path::prefix_like(path::path_bytes(dir)),
{
    proof {
        current_dir_is_short();
    }
    match output_dir {
        Some(dir) => copy_path(dir),
        None => match parent(input) {
            Some(dir) => dir,
            None => path_from("."),
        },
    }
}

proof fn current_dir_is_short()
    ensures
        encode_utf8("."@).len() == 1,
{
    reveal_strlit(".");
    reveal_with_fuel(encode_utf8, 2);
}

/// Whether `path` is one of `used`.
fn is_used(used: &Vec<PathBuf>, path: &PathBuf) -> (found: bool)
    ensures
        found == taken(path::list_bytes(used@), path::path_bytes(*path)),
{
    let mut i: usize = 0;
    while i < used.len()
        invariant
            i <= used.len(),
            forall|k: int|
                0 <= k < i ==> !path::same(#[trigger] path::list_bytes(used@)[k], path::path_bytes(*path)),
        decreases used.len() - i,
    {
        if same_path(&used[i], path) {
            assert(path::same(path::list_bytes(used@)[i as int], path::path_bytes(*path)));
            return true;
        }
        i += 1;
    }
    false
}

/// The `n`-th candidate for `stem` in `dir`.
fn candidate_path(dir: &PathBuf, stem: &String, n: usize) -> (path: PathBuf)
    requires
        is_stem(stem@),
    ensures
        path::path_bytes(path) == candidate(path::path_bytes(*dir), stem@, n as nat),
        !stem_is_split(stem@) && !path::prefix_like(path::path_bytes(*dir)) ==> path::parts(
            path::path_bytes(path),
        ) == path::parts(path::path_bytes(*dir)).push(
            path::PathPart::Normal(encode_utf8(stem@ + tail(n as nat))),
        ),
        forall|m: nat|
            m != n ==> !path::same(
                path::path_bytes(path),
                #[trigger] candidate(path::path_bytes(*dir), stem@, m),
            ),
{
    let mut name = stem.clone();
    if n == 0 {
        name.append(".ogg");
    } else {
        name.append(" (");
        name.append(decimal_text(n as u64).as_str());
        name.append(").ogg");
    }
    proof {
        assert(name@ =~= stem@ + tail(n as nat));
        if !stem_is_split(stem@) {
            stem_with_tail_is_plain(stem@, n as nat);
        }
    }
    let path = join_text(dir, name.as_str());
    proof {
        let whole = path::path_bytes(path);
        let d = path::path_bytes(*dir);
        tail_is_plain(n as nat);
        assert(path::keeps_apart(whole, d, stem@, tail(n as nat)));
        assert forall|m: nat| m != n implies !path::same(
            whole,
            #[trigger] candidate(d, stem@, m),
        ) by {
            tail_is_plain(m);
            if tail(m) == tail(n as nat) {
                tail_injective(m, n as nat);
            }
            assert(!path::same(whole, path::joined(d, encode_utf8(stem@ + tail(m)))));
        }
    }
    path
}

/// The first candidate for `input` that is not one of `used`.
fn free_output(output_dir: &Option<PathBuf>, input: &PathBuf, used: &Vec<PathBuf>) -> (out: PathBuf)
    ensures
        output_for(
            path::option_bytes(*output_dir),
            path::path_bytes(*input),
            path::list_bytes(used@),
            path::path_bytes(out),
        ),
        lies_in_target(
            path::option_bytes(*output_dir),
            path::path_bytes(*input),
            path::path_bytes(out),
        ),
        keeps_source_name(
            path::option_bytes(*output_dir),
            path::path_bytes(*input),
            path::list_bytes(used@),
            path::path_bytes(out),
        ),
{
    let dir = output_dir_for(output_dir, input);
    let stem = output_stem(input);
    let ghost d = path::path_bytes(dir);
    let mut out = candidate_path(&dir, &stem, 0);
    let mut n: usize = 0;
    while is_used(used, &out)
        invariant
            d == path::path_bytes(dir),
            is_stem(stem@),
            path::path_bytes(out) == candidate(d, stem@, n as nat),
            !stem_is_split(stem@) && !path::prefix_like(d) ==> path::parts(path::path_bytes(out))
                == path::parts(d).push(
                path::PathPart::Normal(encode_utf8(stem@ + tail(n as nat))),
            ),
            forall|m: nat|
                m < n ==> taken(path::list_bytes(used@), #[trigger] candidate(d, stem@, m)),
            forall|m: nat, k: nat|
                m <= n && k != m ==> !path::same(
                    #[trigger] candidate(d, stem@, m),
                    #[trigger] candidate(d, stem@, k),
                ),
            n <= used.len(),
        decreases used.len() - n,
    {
        proof {
            let tried = Seq::new((n + 1) as nat, |m: int| candidate(d, stem@, m as nat));
            assert forall|i: int| 0 <= i < tried.len() implies taken(
                path::list_bytes(used@),
                #[trigger] tried[i],
            ) by {
                assert(tried[i] == candidate(d, stem@, i as nat));
            }
            taken_is_bounded(path::list_bytes(used@), tried);
        }
        n += 1;
        out = candidate_path(&dir, &stem, n);
    }
    assert(first_free(path::list_bytes(used@), d, stem@, n as nat));
    proof {
        source_name_is_kept(
            path::option_bytes(*output_dir),
            path::path_bytes(*input),
            path::list_bytes(used@),
            path::path_bytes(out),
            n as nat,
        );
    }
    out
}

proof fn source_name_is_kept(
    output_dir: Option<Seq<u8>>,
    input: Seq<u8>,
    used: Seq<Seq<u8>>,
    out: Seq<u8>,
    n: nat,
)
    requires
        first_free(used, target_dir(output_dir, input), stem_text(input), n),
        !stem_is_split(stem_text(input)) && target_takes_names(output_dir, input) ==> path::parts(
            out,
        ) == path::parts(target_dir(output_dir, input)).push(
            path::PathPart::Normal(encode_utf8(stem_text(input) + tail(n))),
        ),
    ensures
        keeps_source_name(output_dir, input, used, out),
{
    if let Some(name) = path::file_name_of(input) {
        let stem = path::stem_of(name);
        let dir = target_dir(output_dir, input);
        let end = encode_utf8(".ogg"@);
        if valid_utf8(stem) && !stem_is_split(decode_utf8(stem)) && target_takes_names(
            output_dir,
            input,
        ) {
            let last = encode_utf8(stem_text(input) + tail(n));
            decode_utf8_encode_utf8(stem);
            text_laws::utf8_of_both(stem_text(input), tail(n));
            text_laws::utf8_of_both(stem_text(input), ".ogg"@);
            assert(path::parts(out).drop_last() =~= path::parts(dir));
            if n > 0 {
                reveal_strlit(").ogg");
                reveal_strlit(".ogg");
                assert(").ogg"@ =~= seq![')'] + ".ogg"@);
                let front = " ("@ + text::decimal(n) + seq![')'];
                assert(tail(n) =~= front + ".ogg"@);
                text_laws::utf8_of_both(front, ".ogg"@);
                assert(last =~= stem + encode_utf8(front) + end);
                assert(taken(used, candidate(dir, stem_text(input), 0)));
            }
            assert(end.is_suffix_of(last));
        }
    }
}

/// The output paths of `inputs`, one for each and in their order. They lie in `output_dir`, or
/// beside the inputs where none is chosen, and no two of them are the same path.
pub fn build_output_paths(output_dir: &Option<PathBuf>, inputs: &Vec<PathBuf>) -> (outputs: Vec<
    PathBuf,
>)
    ensures
        outputs_for(
            path::option_bytes(*output_dir),
            path::list_bytes(inputs@),
            path::list_bytes(outputs@),
        ),
        forall|i: int|
            0 <= i < inputs.len() ==> lies_in_target(
                path::option_bytes(*output_dir),
                path::path_bytes(inputs[i]),
                path::path_bytes(#[trigger] outputs[i]),
            ),
        forall|i: int|
            0 <= i < inputs.len() ==> keeps_source_name(
                path::option_bytes(*output_dir),
                path::path_bytes(inputs[i]),
                path::list_bytes(outputs@).take(i),
                path::path_bytes(#[trigger] outputs[i]),
            ),
{
    let mut outputs: Vec<PathBuf> = Vec::new();
    let mut i: usize = 0;
    while i < inputs.len()
        invariant
            i <= inputs.len(),
            outputs.len() == i,
            forall|k: int|
                0 <= k < i ==> output_for(
                    path::option_bytes(*output_dir),
                    path::list_bytes(inputs@)[k],
                    path::list_bytes(outputs@).take(k),
                    #[trigger] path::list_bytes(outputs@)[k],
                ),
            forall|k: int|
                0 <= k < i ==> lies_in_target(
                    path::option_bytes(*output_dir),
                    path::path_bytes(inputs[k]),
                    path::path_bytes(#[trigger] outputs[k]),
                ),
            forall|k: int|
                0 <= k < i ==> keeps_source_name(
                    path::option_bytes(*output_dir),
                    path::path_bytes(inputs[k]),
                    path::list_bytes(outputs@).take(k),
                    path::path_bytes(#[trigger] outputs[k]),
                ),
        decreases inputs.len() - i,
    {
        let ghost before = path::list_bytes(outputs@);
        let out = free_output(output_dir, &inputs[i], &outputs);
        outputs.push(out);
        proof {
            let after = path::list_bytes(outputs@);
            assert forall|k: int| 0 <= k < i + 1 implies output_for(
                path::option_bytes(*output_dir),
                path::list_bytes(inputs@)[k],
                after.take(k),
                #[trigger] after[k],
            ) by {
                assert(after.take(k) =~= before.take(k));
                if k == i {
                    assert(before.take(k) =~= before);
                } else {
                    assert(after[k] == before[k]);
                }
            }
            assert forall|k: int| 0 <= k < i + 1 implies keeps_source_name(
                path::option_bytes(*output_dir),
                path::path_bytes(inputs[k]),
                after.take(k),
                path::path_bytes(#[trigger] outputs[k]),
            ) by {
                assert(after.take(k) =~= before.take(k));
                if k == i {
                    assert(before.take(k) =~= before);
                }
            }
        }
        i += 1;
    }
    outputs
}

} // verus!
