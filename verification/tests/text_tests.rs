use clioude::language::{
    availability_entry, copy_command, get_command, has_command, CommandLine, Language,
    LanguageTable,
};
use clioude::text::{ascii_words_of, joined, utf8_lossy};

#[test]
fn words_split_at_ascii_whitespace() {
    assert_eq!(
        ascii_words_of("  g++ -O2\t-w\nmain.cpp\r\x0c-o main  "),
        vec!["g++", "-O2", "-w", "main.cpp", "-o", "main"]
    );
    assert_eq!(ascii_words_of(""), Vec::<String>::new());
    assert_eq!(ascii_words_of(" \t\n"), Vec::<String>::new());
    // A vertical tab and a non-breaking space are not ASCII whitespace here.
    assert_eq!(ascii_words_of("a\x0bb c\u{a0}d"), vec!["a\x0bb", "c\u{a0}d"]);
    assert_eq!(ascii_words_of("héllo wörld"), vec!["héllo", "wörld"]);
}

#[test]
fn get_command_takes_program_then_args() {
    let c = get_command(&"python3   main.py --fast".to_string());
    assert_eq!(c.program, "python3");
    assert_eq!(c.args, vec!["main.py", "--fast"]);
    let c = get_command(&"./main".to_string());
    assert_eq!(c, CommandLine { program: "./main".to_string(), args: vec![] });
    assert_eq!(copy_command(&c), c);
}

#[test]
fn has_command_needs_a_word() {
    assert!(has_command(&"ls".to_string()));
    assert!(!has_command(&"   ".to_string()));
    assert!(!has_command(&String::new()));
}

#[test]
fn lossy_decoding() {
    assert_eq!(utf8_lossy(b"C++"), "C++");
    assert_eq!(utf8_lossy(b"a\xffb"), "a\u{fffd}b");
    assert_eq!(joined("run/", "x"), "run/x");
}

fn lang(file: &str, timeout: u64) -> Language {
    Language {
        file: file.to_string(),
        check_command: "true".to_string(),
        run_command: "./main".to_string(),
        prepare_command: None,
        idle_timeout: timeout,
    }
}

#[test]
fn table_reads_back_what_was_written() {
    let mut t = LanguageTable::new();
    let cpp = "C++".to_string();
    let py = "Python".to_string();
    assert_eq!(t.get(&cpp), None);
    t.insert(cpp.clone(), lang("main.cpp", 10));
    t.insert(py.clone(), lang("main.py", 5));
    assert_eq!(t.get(&cpp), Some(&lang("main.cpp", 10)));
    t.insert(cpp.clone(), lang("a.cpp", 1));
    assert_eq!(t.get(&cpp), Some(&lang("a.cpp", 1)));
    assert_eq!(t.get(&py), Some(&lang("main.py", 5)));
    assert_eq!(t.get(&"Rust".to_string()), None);
}

#[test]
fn availability_joins_stdout_and_stderr() {
    assert_eq!(
        availability_entry(&"C++".to_string(), true, b"g++ 12\n", b"warn\n"),
        Some(("C++".to_string(), "g++ 12\nwarn\n".to_string()))
    );
    assert_eq!(availability_entry(&"C++".to_string(), false, b"x", b"y"), None);
}

#[test]
fn rejoined_command_keeps_its_words() {
    let raw1 = "  g++\t-O2 \n main.cpp   -o main ".to_string();
    let joined_words = ascii_words_of(&raw1).join(" ");
    let raw2 = format!(" \t{}\r\n", joined_words);
    assert_eq!(get_command(&raw1), get_command(&raw2));
    assert_eq!(joined_words, "g++ -O2 main.cpp -o main");
}
