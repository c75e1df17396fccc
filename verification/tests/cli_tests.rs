use rust_chip8::CliOptions;
use rust_chip8::cli::parse_args;

fn strings(args: &[&str]) -> Vec<String> {
    args.iter().map(|a| a.to_string()).collect()
}

#[test]
fn parse_defaults() {
    let opts: CliOptions = parse_args(&strings(&[]));
    assert!(!opts.debug);
    assert!(!opts.use_sdl);
    assert_eq!(opts.filepath, None);
}

#[test]
fn parse_flags_and_path() {
    let opts = parse_args(&strings(&["prog", "-d", "-f", "rom.ch8", "--sdl"]));
    assert!(opts.debug);
    assert!(opts.use_sdl);
    assert_eq!(opts.filepath.as_deref(), Some("rom.ch8"));
}

#[test]
fn parse_last_path_wins() {
    let opts = parse_args(&strings(&["-f", "a.ch8", "-f", "b.ch8"]));
    assert_eq!(opts.filepath.as_deref(), Some("b.ch8"));
}

#[test]
fn parse_trailing_path_flag_is_ignored() {
    let opts = parse_args(&strings(&["-f", "a.ch8", "-f"]));
    assert_eq!(opts.filepath.as_deref(), Some("a.ch8"));
    let opts = parse_args(&strings(&["-f"]));
    assert_eq!(opts.filepath, None);
}
