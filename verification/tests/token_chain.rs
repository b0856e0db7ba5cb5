use notion_cli::token_provider::providers::exec::{split_command, split_words};
use notion_cli::token_provider::providers::file::token_file_path;
use notion_cli::text::trim;
use notion_cli::token_provider::{
    clean_token, token_from_output, EnvProvider, ExecProvider, FileProvider, KeychainProvider, ProviderKind, TokenChain,
    TokenProvider,
};

#[test]
fn default_chain_order() {
    let c = TokenChain::default_chain();
    assert_eq!(
        c.providers(),
        &vec![ProviderKind::Env, ProviderKind::File, ProviderKind::Keychain, ProviderKind::Exec]
    );
    assert_eq!(EnvProvider.name(), "env:NOTION_TOKEN");
    assert_eq!(FileProvider.name(), "file");
    assert_eq!(KeychainProvider.name(), "keychain");
    assert_eq!(ExecProvider.name(), "exec:NOTION_TOKEN_CMD");
}

#[test]
fn first_token_wins_and_shadows_are_named() {
    let c = TokenChain::default_chain();
    let r = c.resolve(vec![None, Some("ntn_file".to_string()), None, Some("ntn_exec".to_string())]);
    assert_eq!(r.token.unwrap().expose(), "ntn_file");
    assert_eq!(
        r.warning.unwrap(),
        "notion-cli: warning: file token shadows exec:NOTION_TOKEN_CMD entries; using file"
    );
    let r = c.resolve(vec![Some("a".to_string()), Some("b".to_string()), Some("c".to_string()), None]);
    assert_eq!(r.token.unwrap().expose(), "a");
    assert_eq!(
        r.warning.unwrap(),
        "notion-cli: warning: env:NOTION_TOKEN token shadows file, keychain entries; using env:NOTION_TOKEN"
    );
    let r = c.resolve(vec![None, None, Some("k".to_string()), None]);
    assert_eq!(r.token.unwrap().expose(), "k");
    assert!(r.warning.is_none());
    let r = c.resolve(vec![None, None, None, None]);
    assert!(r.token.is_none() && r.warning.is_none());
}

#[test]
fn trimming_tokens() {
    assert_eq!(trim("  \t ntn_abc \n"), "ntn_abc");
    assert_eq!(trim("\u{3000}x y\u{a0}"), "x y");
    assert_eq!(clean_token(" \n\t "), None);
    assert_eq!(clean_token("secret_1\n"), Some("secret_1".to_string()));
}

#[test]
fn command_splitting() {
    assert_eq!(split_words("  op  read\tnotion \n"), vec!["op", "read", "notion"]);
    assert_eq!(split_command("   "), None);
    let (program, args) = split_command("pass show notion/token").unwrap();
    assert_eq!(program, "pass");
    assert_eq!(args, vec!["show", "notion/token"]);
    let (program, args) = split_command("token-cmd").unwrap();
    assert_eq!(program, "token-cmd");
    assert!(args.is_empty());
}

#[test]
fn token_file_location() {
    assert_eq!(token_file_path(Some("/etc/tok"), Some("/home/u")), Some("/etc/tok".to_string()));
    assert_eq!(token_file_path(None, Some("/home/u")), Some("/home/u/.config/notion-cli/token".to_string()));
    assert_eq!(token_file_path(None, Some("/home/u/")), Some("/home/u/.config/notion-cli/token".to_string()));
    assert_eq!(token_file_path(None, Some("")), Some(".config/notion-cli/token".to_string()));
    assert_eq!(token_file_path(None, None), None);
}

#[test]
fn chain_order_from_setting() {
    let order = |s: Option<&str>| TokenChain::chain_from_spec(s).providers().clone();
    let default = vec![ProviderKind::Env, ProviderKind::File, ProviderKind::Keychain, ProviderKind::Exec];
    assert_eq!(order(None), default);
    assert_eq!(order(Some("keychain,env")), vec![ProviderKind::Keychain, ProviderKind::Env]);
    assert_eq!(order(Some(" exec , file ")), vec![ProviderKind::Exec, ProviderKind::File]);
    assert_eq!(order(Some("env,bogus")), default);
    assert_eq!(order(Some("")), default);
    assert_eq!(order(Some("env,")), default);
}

#[test]
fn command_output_as_token() {
    assert_eq!(token_from_output(false, b"tok".to_vec()), None);
    assert_eq!(token_from_output(true, b"  tok\n".to_vec()), Some("tok".to_string()));
    assert_eq!(token_from_output(true, b" \n".to_vec()), None);
    assert_eq!(token_from_output(true, vec![0x74, 0xff, 0x6b]), None);
}
