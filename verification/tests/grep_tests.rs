use bootrt::grep::{search, search_case_insensitive, str_contains, str_lines, Config};

#[test]
fn case_sensitive() {
    let query = "duct";
    let contents = "\
Rust:
safe, fast, productive.
Pick three.";

    assert_eq!(vec!["safe, fast, productive."], search(query, contents));
}

#[test]
fn case_insensitive() {
    let query = "rUsT";
    let contents = "\
Rust:
safe, fast, productive.
Pick three.
Trust me.";

    assert_eq!(
        vec!["Rust:", "Trust me."],
        search_case_insensitive(query, contents)
    );
}

#[test]
fn lib_case_sensitive() {
    let query = "duct";
    let contents = "\
Rust:
safe, fast, productive.
Pick three.";

    assert_eq!(vec!["safe, fast, productive."], search(query, contents));
}

#[test]
fn lib_case_insensitive() {
    let query = "rUsT";
    let contents = "\
Rust:
safe, fast, productive.
Pick three.
Trust me.";

    assert_eq!(
        vec!["Rust:", "Trust me."],
        search_case_insensitive(query, contents)
    );
}

#[test]
fn search_misses_when_absent() {
    let contents = "one\ntwo\nthree";
    assert_eq!(Vec::<&str>::new(), search("four", contents));
}

#[test]
fn search_keeps_line_order() {
    let contents = "alpha\nbeta\nalpha beta\ngamma";
    assert_eq!(vec!["alpha", "alpha beta"], search("alpha", contents));
}

#[test]
fn case_insensitive_folds_both_sides() {
    let contents = "Pick three.\npick two.\nPICK one.";
    assert_eq!(
        vec!["Pick three.", "pick two.", "PICK one."],
        search_case_insensitive("PiCk", contents)
    );
}

#[test]
fn lines_split_like_std() {
    assert_eq!(Vec::<&str>::new(), str_lines(""));
    assert_eq!(vec![""], str_lines("\n"));
    assert_eq!(vec!["a", "b"], str_lines("a\nb"));
    assert_eq!(vec!["a", "b"], str_lines("a\nb\n"));
    assert_eq!(vec!["a", "b"], str_lines("a\r\nb\r\n"));
    assert_eq!(vec!["a\r"], str_lines("a\r"));
}

#[test]
fn contains_edges() {
    assert!(str_contains("anything", ""));
    assert!(str_contains("", ""));
    assert!(!str_contains("", "x"));
    assert!(str_contains("productive", "duct"));
    assert!(!str_contains("duc", "duct"));
}

#[test]
fn config_rejects_missing_arguments() {
    let args = vec!["prog".to_string(), "query".to_string()];
    assert_eq!(Err("not enough arguments"), Config::new(args, true).map(|_| ()));
}

#[test]
fn config_takes_query_and_filename() {
    let args = vec![
        "prog".to_string(),
        "to".to_string(),
        "poem.txt".to_string(),
    ];
    let config = Config::new(args, false).unwrap();
    assert_eq!("to", config.query);
    assert_eq!("poem.txt", config.filename);
    assert!(!config.case_sensitive);
}

#[test]
fn run_search_obeys_case_flag() {
    let contents = "Rust:\nTrust me.";
    let sensitive = Config {
        query: "rust".to_string(),
        filename: "poem.txt".to_string(),
        case_sensitive: true,
    };
    let insensitive = Config {
        query: "rust".to_string(),
        filename: "poem.txt".to_string(),
        case_sensitive: false,
    };
    assert_eq!(
        vec!["Trust me."],
        bootrt::grep::run_search(&sensitive, contents)
    );
    assert_eq!(
        vec!["Rust:", "Trust me."],
        bootrt::grep::run_search(&insensitive, contents)
    );
}
