use job_runner::files::{name_file, JobFiles};

fn strings(list: &[&str]) -> Vec<String> {
    list.iter().map(|s| s.to_string()).collect()
}

#[test]
fn final_components_agree_with_std_paths() {
    let paths = [
        "", "/", ".", "..", "./", "/.", "a", "a/", "a//", "a/.", "a/./", "a/..", "../a", "./a",
        "a/b.txt", "/x/y/z", "data/in put.csv", "a/.hidden", "a/...", "dir/../f", "f/./.", "//f",
        "\u{e9}t\u{e9}/\u{fc}ber.txt", "a/../.", "data\\in.txt", "C:in.txt", "x/C:", "\\\\s\\t\\u",
    ];
    let final_component = |path: &str| {
        std::path::Path::new(path).file_name().map(|n| n.to_str().unwrap().to_string())
    };
    for path in paths {
        let file = name_file(path);
        assert_eq!(file.as_ref().map(|f| f.name.clone()), final_component(path), "{:?}", path);
        if let Some(file) = file {
            assert_eq!(file.remote, final_component(&file.name), "{:?}", path);
        }
    }
}

#[test]
fn portable_path_is_named_by_its_final_component() {
    for (path, name) in [
        ("inputs/water.gro", "water.gro"),
        ("deep/down/run.sh/", "run.sh"),
        ("/x/./y/.", "y"),
        ("run.sh", "run.sh"),
        ("a/../b c", "b c"),
    ] {
        let file = name_file(path).unwrap();
        assert_eq!(file.name, name);
        assert_eq!(file.remote, Some(name.to_string()));
    }
    for path in ["", "/", ".", "..", "inputs/..", "a/../."] {
        assert!(name_file(path).is_none());
    }
}

#[test]
fn job_starts_from_inputs_and_scripts() {
    let files = JobFiles {
        inputs: strings(&["in/a", "b"]),
        outputs: strings(&["out/c", "out/d"]),
        scripts: strings(&["job.sh"]),
    };
    let named = files.named().unwrap();
    let staged: Vec<&str> = named.staged.iter().map(|f| f.name.as_str()).collect();
    let outputs: Vec<&str> = named.outputs.iter().map(|f| f.name.as_str()).collect();
    assert_eq!(staged, ["a", "b", "job.sh"]);
    assert_eq!(outputs, ["c", "d"]);
}

#[test]
fn path_without_a_final_component_names_nothing() {
    for (inputs, outputs, scripts) in [
        (vec!["a", "a/.."], vec![], vec![]),
        (vec![], vec!["/"], vec!["job.sh"]),
        (vec!["a"], vec!["b"], vec![""]),
    ] {
        let files = JobFiles {
            inputs: strings(&inputs),
            outputs: strings(&outputs),
            scripts: strings(&scripts),
        };
        assert!(files.named().is_none());
    }
}
