//! How outputs follow from the files that they are made of.

use vstd::prelude::*;
use vstd::utf8::*;
use crate::output;
use crate::path;
use crate::text;
use crate::text_laws;

verus! {

/// Whether outputs are put into `dir` for an input: it is the chosen folder or, where none is
/// chosen, that of the input, or the current one where the input has none.
pub open spec fn is_target(output_dir: Option<Seq<u8>>, input: Seq<u8>, dir: Seq<u8>) -> bool {
    &&& output_dir is Some ==> dir == output_dir->0
    &&& output_dir is None && path::parent_of(input) is Some ==> dir == path::parent_of(input)->0
    &&& output_dir is None && path::parent_of(input) is None ==> dir == encode_utf8("."@)
}

/// Whether a path is that of an output before `i`.
pub open spec fn given_before(outputs: Seq<Seq<u8>>, i: int, path: Seq<u8>) -> bool {
    exists|j: int| 0 <= j < i && path::same(#[trigger] outputs[j], path)
}

proof fn given_is_taken(outputs: Seq<Seq<u8>>, i: int, path: Seq<u8>)
    requires
        0 <= i <= outputs.len(),
    ensures
        output::taken(outputs.take(i), path) == given_before(outputs, i, path),
{
    if given_before(outputs, i, path) {
        let j = choose|j: int| 0 <= j < i && path::same(#[trigger] outputs[j], path);
        assert(outputs.take(i)[j] == outputs[j]);
    }
    if output::taken(outputs.take(i), path) {
        let j = choose|j: int|
            0 <= j < outputs.take(i).len() && path::same(#[trigger] outputs.take(i)[j], path);
        assert(outputs[j] == outputs.take(i)[j]);
    }
}

/// Each output is made of the bytes of its source's name, whatever characters they spell: of what
/// stands before the last dot, with `.ogg` behind it where that path is free, and else with the
/// first number from one on that makes it free.
pub proof fn outputs_carry_source_names(
    output_dir: Option<Seq<u8>>,
    inputs: Seq<Seq<u8>>,
    outputs: Seq<Seq<u8>>,
    i: int,
    dir: Seq<u8>,
    name: Seq<u8>,
)
    requires
        output::outputs_for(output_dir, inputs, outputs),
        0 <= i < inputs.len(),
        is_target(output_dir, inputs[i], dir),
        path::file_name_of(inputs[i]) == Some(name),
        valid_utf8(path::stem_of(name)),
    ensures
        outputs.len() == inputs.len(),
        !given_before(outputs, i, outputs[i]),
        !given_before(outputs, i, path::joined(dir, path::stem_of(name) + encode_utf8(".ogg"@)))
            ==> outputs[i] == path::joined(dir, path::stem_of(name) + encode_utf8(".ogg"@)),
        given_before(outputs, i, path::joined(dir, path::stem_of(name) + encode_utf8(".ogg"@)))
            ==> exists|n: nat|
            1 <= n && outputs[i] == path::joined(
                dir,
                path::stem_of(name) + encode_utf8(" ("@ + #[trigger] text::decimal(n) + ").ogg"@),
            ) && forall|m: nat|
                1 <= m < n ==> given_before(
                    outputs,
                    i,
                    path::joined(
                        dir,
                        path::stem_of(name) + encode_utf8(
                            " ("@ + #[trigger] text::decimal(m) + ").ogg"@,
                        ),
                    ),
                ),
{
    let stem = path::stem_of(name);
    let shown = decode_utf8(stem);
    let input = inputs[i];
    decode_utf8_encode_utf8(stem);
    assert(output::output_for(output_dir, input, outputs.take(i), outputs[i]));
    assert(output::stem_text(input) == shown);
    assert(output::target_dir(output_dir, input) == dir);
    let n = choose|n: nat|
        #![trigger output::candidate(dir, shown, n)]
        output::first_free(outputs.take(i), dir, shown, n) && outputs[i] == output::candidate(
            dir,
            shown,
            n,
        );
    assert forall|m: nat|
        #[trigger] output::candidate(dir, shown, m) == path::joined(
            dir,
            stem + encode_utf8(output::tail(m)),
        ) by {
        text_laws::utf8_of_both(shown, output::tail(m));
    }
    assert forall|p: Seq<u8>| #[trigger] output::taken(outputs.take(i), p) == given_before(
        outputs,
        i,
        p,
    ) by {
        given_is_taken(outputs, i, p);
    }
    let first = output::candidate(dir, shown, 0);
    assert(first == path::joined(dir, stem + encode_utf8(".ogg"@)));
    assert(output::taken(outputs.take(i), first) == given_before(outputs, i, first));
    assert(!output::taken(outputs.take(i), outputs[i]));
    if n > 0 {
        assert forall|m: nat| 1 <= m < n implies given_before(
            outputs,
            i,
            path::joined(
                dir,
                stem + encode_utf8(" ("@ + #[trigger] text::decimal(m) + ").ogg"@),
            ),
        ) by {
            assert(output::taken(outputs.take(i), output::candidate(dir, shown, m)));
        }
        assert(outputs[i] == path::joined(
            dir,
            stem + encode_utf8(" ("@ + text::decimal(n) + ").ogg"@),
        ));
    }
}

/// An input without a file name, or with one that is not text before its last dot, is named
/// `output`, numbered in the same way.
pub proof fn nameless_inputs_have_outputs(
    output_dir: Option<Seq<u8>>,
    inputs: Seq<Seq<u8>>,
    outputs: Seq<Seq<u8>>,
    i: int,
    dir: Seq<u8>,
)
    requires
        output::outputs_for(output_dir, inputs, outputs),
        0 <= i < inputs.len(),
        is_target(output_dir, inputs[i], dir),
        !(path::file_name_of(inputs[i]) matches Some(name) && valid_utf8(path::stem_of(name))),
    ensures
        !given_before(outputs, i, outputs[i]),
        !given_before(outputs, i, path::joined(dir, encode_utf8("output.ogg"@))) ==> outputs[i]
            == path::joined(dir, encode_utf8("output.ogg"@)),
        given_before(outputs, i, path::joined(dir, encode_utf8("output.ogg"@))) ==> exists|n: nat|
            1 <= n && outputs[i] == path::joined(
                dir,
                encode_utf8("output ("@ + #[trigger] text::decimal(n) + ").ogg"@),
            ) && forall|m: nat|
                1 <= m < n ==> given_before(
                    outputs,
                    i,
                    path::joined(
                        dir,
                        encode_utf8("output ("@ + #[trigger] text::decimal(m) + ").ogg"@),
                    ),
                ),
{
    let input = inputs[i];
    let shown = "output"@;
    reveal_strlit("output");
    reveal_strlit("output.ogg");
    reveal_strlit("output (");
    reveal_strlit(".ogg");
    reveal_strlit(" (");
    reveal_strlit(").ogg");
    assert(output::output_for(output_dir, input, outputs.take(i), outputs[i]));
    assert(output::stem_text(input) == shown);
    assert(output::target_dir(output_dir, input) == dir);
    let n = choose|n: nat|
        #![trigger output::candidate(dir, shown, n)]
        output::first_free(outputs.take(i), dir, shown, n) && outputs[i] == output::candidate(
            dir,
            shown,
            n,
        );
    assert(shown + output::tail(0) =~= "output.ogg"@);
    assert forall|m: nat| 1 <= m implies shown + #[trigger] output::tail(m) == "output ("@
        + text::decimal(m) + ").ogg"@ by {
        assert(shown + output::tail(m) =~= "output ("@ + text::decimal(m) + ").ogg"@);
    }
    assert forall|p: Seq<u8>| #[trigger] output::taken(outputs.take(i), p) == given_before(
        outputs,
        i,
        p,
    ) by {
        given_is_taken(outputs, i, p);
    }
    let first = output::candidate(dir, shown, 0);
    assert(first == path::joined(dir, encode_utf8("output.ogg"@)));
    assert(output::taken(outputs.take(i), first) == given_before(outputs, i, first));
    assert(!output::taken(outputs.take(i), outputs[i]));
    if n > 0 {
        assert forall|m: nat| 1 <= m < n implies given_before(
            outputs,
            i,
            path::joined(dir, encode_utf8("output ("@ + #[trigger] text::decimal(m) + ").ogg"@)),
        ) by {
            assert(shown + output::tail(m) == "output ("@ + text::decimal(m) + ").ogg"@);
            assert(output::taken(outputs.take(i), output::candidate(dir, shown, m)));
        }
        assert(shown + output::tail(n) == "output ("@ + text::decimal(n) + ").ogg"@);
        assert(outputs[i] == path::joined(
            dir,
            encode_utf8("output ("@ + text::decimal(n) + ").ogg"@),
        ));
    }
}

} // verus!
