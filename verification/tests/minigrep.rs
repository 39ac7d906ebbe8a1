use mt_server::minigrep::Config;
use mt_server::minigrep::run_search;
use mt_server::minigrep::search;
use mt_server::minigrep::search_case_insensitive;
use mt_server::minigrep::split_into_lines;
use mt_server::minigrep::str_contains;

#[test]
fn case_sensitive() {
    let query = "duct";
    let contents = "\
Rust:
safe, fast, productive.
Pick three.
Duct tape.";

    assert_eq!(vec!["safe, fast, productive.".to_string()], search(query, contents));
}

#[test]
fn case_insensitive() {
    let query = "rUsT";
    let contents = "\
Rust:
safe, fast, productive.
Pick three.
Trust me.";

    assert_eq!(
        vec!["Rust:".to_string(), "Trust me.".to_string()],
        search_case_insensitive(query, contents)
    );
}

#[test]
fn splitting_handles_line_ending_styles() {
    assert_eq!(split_into_lines(""), Vec::<String>::new());
    assert_eq!(split_into_lines("one"), vec!["one".to_string()]);
    assert_eq!(split_into_lines("one\ntwo"), vec!["one".to_string(), "two".to_string()]);
    // A trailing newline adds no empty final line.
    assert_eq!(split_into_lines("one\ntwo\n"), vec!["one".to_string(), "two".to_string()]);
    // A carriage return before the break is dropped; one mid-line stays.
    assert_eq!(split_into_lines("one\r\ntwo\r"), vec!["one".to_string(), "two\r".to_string()]);
    assert_eq!(split_into_lines("a\n\nb"), vec!["a".to_string(), "".to_string(), "b".to_string()]);
}

#[test]
fn contains_finds_substrings() {
    assert!(str_contains("productive", "duct"));
    assert!(str_contains("abc", ""));
    assert!(str_contains("abc", "abc"));
    assert!(!str_contains("abc", "abcd"));
    assert!(!str_contains("Duct", "duct"));
}

#[test]
fn config_requires_query_and_filename() {
    let none = vec!["minigrep".to_string()];
    assert_eq!(Config::new(&none, true).err(), Some("Didn't get a query string"));
    let one = vec!["minigrep".to_string(), "duct".to_string()];
    assert_eq!(Config::new(&one, true).err(), Some("Didn't get a file name"));
    let both = vec!["minigrep".to_string(), "duct".to_string(), "poem.txt".to_string()];
    let config = Config::new(&both, false).unwrap();
    assert_eq!(config.query, "duct");
    assert_eq!(config.filename, "poem.txt");
    assert!(!config.case_sensitive);
}

#[test]
fn run_search_honours_case_choice() {
    let contents = "Rust:\nTrust me.";
    let sensitive = Config {
        query: "rUsT".to_string(),
        filename: "poem.txt".to_string(),
        case_sensitive: true,
    };
    assert_eq!(run_search(&sensitive, contents), Vec::<String>::new());
    let insensitive = Config { case_sensitive: false, ..sensitive };
    assert_eq!(
        run_search(&insensitive, contents),
        vec!["Rust:".to_string(), "Trust me.".to_string()]
    );
}
