use wacc_lexer::driver::{
    assembly_file, executable_file, file_stem, last_dot_index, preprocessed_file, with_extension, Command, Stage,
};

#[test]
fn test() {
    let input = "programs/return_2.c";
    let pre = preprocessed_file(input).unwrap();
    assert_eq!(pre, "programs/return_2.i");
    let assembly = assembly_file(&pre).unwrap();
    assert_eq!(assembly, "programs/return_2.s");
    assert_eq!(executable_file(&assembly), Some("programs/return_2"));
}

#[test]
fn names_use_the_last_dot() {
    assert_eq!(last_dot_index("a.b.c"), Some(3));
    assert_eq!(last_dot_index("abc"), None);
    assert_eq!(last_dot_index(""), None);
    assert_eq!(file_stem("./dir/x.tar.gz"), Some("./dir/x.tar"));
    assert_eq!(with_extension("é.c", ".i"), Some("é.i".to_string()));
    assert_eq!(with_extension(".c", ".s"), Some(".s".to_string()));
}

#[test]
fn names_without_a_dot_are_refused() {
    assert_eq!(preprocessed_file("main"), None);
    assert_eq!(assembly_file("main"), None);
    assert_eq!(executable_file("main"), None);
}

#[test]
fn exactly_one_stage_flag_selects_the_stage() {
    let c = Command::new("a.c".to_string(), true, false, false);
    assert_eq!(c.stage(), Some(Stage::Lex));
    assert_eq!(c.c_source_file(), "a.c");
    assert_eq!(Command::new("a.c".to_string(), false, true, false).stage(), Some(Stage::Parse));
    assert_eq!(Command::new("a.c".to_string(), false, false, true).stage(), Some(Stage::Codegen));
    assert_eq!(Command::new("a.c".to_string(), false, false, false).stage(), None);
    assert_eq!(Command::new("a.c".to_string(), true, true, false).stage(), None);
}
