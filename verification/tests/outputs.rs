use schrodinger_audio_converter::output::build_output_paths;
use std::path::PathBuf;

fn paths(list: &[&str]) -> Vec<PathBuf> {
    list.iter().map(PathBuf::from).collect()
}

#[test]
fn outputs_lie_beside_their_inputs() {
    let outputs = build_output_paths(&None, &paths(&["/a/one.mp3", "/b/two.flac", "three.wav"]));
    assert_eq!(outputs, paths(&["/a/one.ogg", "/b/two.ogg", "three.ogg"]));
}

#[test]
fn outputs_lie_in_the_chosen_folder() {
    let folder = Some(PathBuf::from("/out"));
    let outputs = build_output_paths(&folder, &paths(&["/a/one.mp3", "/b/two.flac"]));
    assert_eq!(outputs, paths(&["/out/one.ogg", "/out/two.ogg"]));
}

#[test]
fn equal_names_are_numbered() {
    let folder = Some(PathBuf::from("/out"));
    let inputs = paths(&["/a/x.mp3", "/b/x.mp3", "/c/x.wav", "/d/y.mp3", "/e/x.ape"]);
    let outputs = build_output_paths(&folder, &inputs);
    assert_eq!(
        outputs,
        paths(&[
            "/out/x.ogg",
            "/out/x (1).ogg",
            "/out/x (2).ogg",
            "/out/y.ogg",
            "/out/x (3).ogg",
        ])
    );
}

#[test]
fn a_numbered_name_that_is_taken_is_passed_over() {
    let inputs = paths(&["/a/x (1).mp3", "/a/x.mp3", "/a/x.wav", "/a/x (1).wav"]);
    let outputs = build_output_paths(&None, &inputs);
    assert_eq!(
        outputs,
        paths(&["/a/x (1).ogg", "/a/x.ogg", "/a/x (2).ogg", "/a/x (1) (1).ogg"])
    );
}

#[test]
fn spelling_of_a_folder_does_not_matter() {
    let outputs = build_output_paths(&None, &paths(&["/a/x.mp3", "/a/./x.wav", "/a//x.ape"]));
    assert_eq!(outputs, paths(&["/a/x.ogg", "/a/x (1).ogg", "/a/x (2).ogg"]));
}

#[test]
fn an_input_without_a_name_has_a_default_output() {
    let outputs = build_output_paths(&None, &paths(&["/a/..", "/a/..", "/"]));
    assert_eq!(outputs, paths(&["/a/output.ogg", "/a/output (1).ogg", "./output.ogg"]));
}

#[test]
fn dots_and_colons_in_names() {
    let inputs = paths(&["/a/.mp3", "/a/a.b.mp3", "/a/Part: one.mp3", "/a/c:d.mp3", "/a/..mp3"]);
    let outputs = build_output_paths(&None, &inputs);
    assert_eq!(
        outputs,
        paths(&["/a/.mp3.ogg", "/a/a.b.ogg", "/a/Part: one.ogg", "/a/c:d.ogg", "/a/..ogg"])
    );
}

#[test]
fn many_equal_names_stay_apart() {
    let inputs: Vec<PathBuf> = (0..40).map(|i| PathBuf::from(format!("/{i}/x.mp3"))).collect();
    let outputs = build_output_paths(&Some(PathBuf::from("/out")), &inputs);
    for i in 0..outputs.len() {
        for j in 0..i {
            assert_ne!(outputs[i], outputs[j]);
        }
        assert_eq!(outputs[i].parent(), Some(PathBuf::from("/out").as_path()));
    }
    assert_eq!(outputs[39], PathBuf::from("/out/x (39).ogg"));
}

#[test]
fn no_inputs_no_outputs() {
    assert!(build_output_paths(&None, &Vec::new()).is_empty());
}

#[test]
fn every_folder_takes_outputs_apart() {
    let inputs = paths(&["/a/x.mp3", "/a/x.wav", "/a/AC\\DC.mp3", "/a/AC\\DC.wav"]);
    for folder in ["", ".", "/", "//", "//server", "//server/share", "\\\\server", "c:", ".."] {
        let outputs = build_output_paths(&Some(PathBuf::from(folder)), &inputs);
        for i in 0..outputs.len() {
            for j in 0..i {
                assert_ne!(outputs[i], outputs[j], "{folder}");
            }
        }
    }
}
