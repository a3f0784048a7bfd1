use web_server::minigrep::contains;
use web_server::minigrep::lines;
use web_server::minigrep::search;
use web_server::minigrep::Config;

#[test]
fn config_needs_query_and_file() {
    let args = vec![String::from("minigrep"), String::from("needle")];
    match Config::new(&args) {
        Err(e) => assert_eq!(e, "Not enough arguments given."),
        Ok(_) => panic!("two arguments must be refused"),
    }
    assert!(Config::new(&[]).is_err());
}

#[test]
fn config_takes_second_and_third_argument() {
    let args = vec![
        String::from("minigrep"),
        String::from("to"),
        String::from("poem.txt"),
        String::from("extra"),
    ];
    let config = Config::new(&args).ok().unwrap();
    assert_eq!(config.query, "to");
    assert_eq!(config.filename, "poem.txt");
}

#[test]
fn one_result() {
    let query = "duct";
    let contents = "Rust:\nsafe, fast, productive.\nPick three.";
    assert_eq!(vec!["safe, fast, productive."], search(query, contents));
}

#[test]
fn several_results_in_order() {
    let contents = "I'm nobody! Who are you?\nAre you nobody, too?\nThen there's a pair of us - don't tell!\nThey'd banish us, you know.";
    assert_eq!(
        search("you", contents),
        vec!["I'm nobody! Who are you?", "Are you nobody, too?", "They'd banish us, you know."]
    );
    assert!(search("frog", contents).is_empty());
}

#[test]
fn search_is_case_sensitive() {
    assert_eq!(search("rust", "Rust:\ntrust me."), vec!["trust me."]);
}

#[test]
fn lines_split_like_str_lines() {
    assert_eq!(lines("a\r\nb\n\nc\n"), vec!["a", "b", "", "c"]);
    assert_eq!(lines(""), Vec::<&str>::new());
    assert_eq!(lines("\n"), vec![""]);
    assert_eq!(lines("one"), vec!["one"]);
}

#[test]
fn contains_finds_substrings() {
    assert!(contains("productive", "duct"));
    assert!(contains("abc", ""));
    assert!(!contains("ab", "abc"));
    assert!(!contains("abc", "ac"));
    assert!(contains("héllo wörld", "ö"));
}
