use ani::completion::{finish_zsh_completion, CompletionError, ANIME_INFO_ZSH_COMPLETION};

#[test]
fn finishing_replaces_id_completers_and_adds_the_function() {
    let script = "#compdef ani\n'(info)'...\n':id -- The AniList id:_default' \\\n'(characters)'\n':id:_default'\n':other:_default'\n";
    let out = finish_zsh_completion(script.as_bytes().to_vec()).ok().unwrap();
    let expected = format!(
        "#compdef ani\n{ANIME_INFO_ZSH_COMPLETION}\n'(info)'...\n':id -- The AniList id:_ani_info' \\\n'(characters)'\n':id:_ani_info'\n':other:_default'\n"
    );
    assert_eq!(out, expected);
}

#[test]
fn script_without_matches_is_kept() {
    let out = finish_zsh_completion(b"nothing here".to_vec()).ok().unwrap();
    assert_eq!(out, "nothing here");
}

#[test]
fn invalid_utf8_is_an_error() {
    assert!(matches!(finish_zsh_completion(vec![0xff, 0xfe]), Err(CompletionError::Utf8(_))));
}

#[test]
fn completions_of_a_clap_script() {
    let mut cmd = clap::Command::new("ani")
        .subcommand(
            clap::Command::new("info").arg(clap::Arg::new("id").help("The AniList id").required(true)),
        );
    let mut buffer: Vec<u8> = Vec::new();
    clap_complete::generate(clap_complete::shells::Zsh, &mut cmd, "ani", &mut buffer);
    let out = finish_zsh_completion(buffer).ok().unwrap();
    assert!(out.starts_with("#compdef ani\n\n_ani_info() {"));
    assert!(out.contains("':id -- The AniList id:_ani_info'"));
    assert!(!out.contains("':id -- The AniList id:_default'"));
}
