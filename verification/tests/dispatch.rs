use tlt::args::{Cli, Commands, Platform};

#[test]
fn cli_defaults_platform_to_common_and_language_to_english() {
    let cli = Cli { platform: None, language: None, command: Commands::Update };
    assert_eq!(cli.effective_platform(), Platform::Common);
    assert_eq!(cli.effective_language(), "en");
}

#[test]
fn cli_overrides_win() {
    let cli = Cli {
        platform: Some(Platform::Windows),
        language: Some("pt_BR".to_string()),
        command: Commands::Update,
    };
    assert_eq!(cli.effective_platform(), Platform::Windows);
    assert_eq!(cli.effective_language(), "pt_BR");
}

#[test]
fn platform_default_is_common() {
    assert_eq!(Platform::default(), Platform::Common);
}
