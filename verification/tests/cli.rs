use cfg_adguard_dns::dispatch::parse_args;
use cfg_adguard_dns::dispatch::file_write_for;
use cfg_adguard_dns::dispatch::Action;
use cfg_adguard_dns::paths::get_path;
use cfg_adguard_dns::paths::resolvconf_head_default_path;
use cfg_adguard_dns::paths::resolvconf_head_env_var;
use cfg_adguard_dns::templates::activation_content;
use cfg_adguard_dns::templates::adguard_dns_server_config;
use cfg_adguard_dns::templates::deactivation_content;
use cfg_adguard_dns::templates::default_template;
use cfg_adguard_dns::templates::help_message;
use cfg_adguard_dns::templates::unknown_arg_message;

fn args(list: &[&str]) -> Vec<String> {
    list.iter().map(|s| s.to_string()).collect()
}

#[test]
fn get_path_returns_the_env_override_value_when_set() {
    assert_eq!(get_path(Some("/tmp/some/other/head".to_string())), "/tmp/some/other/head");
    // any value counts as set, the empty string included
    assert_eq!(get_path(Some(String::new())), "");
}

#[test]
fn get_path_returns_the_fixed_default_when_unset() {
    assert_eq!(get_path(None), "/etc/resolvconf/resolv.conf.d/head");
    assert_eq!(resolvconf_head_default_path(), "/etc/resolvconf/resolv.conf.d/head");
    assert_eq!(resolvconf_head_env_var(), "RESOLVCONF_HEAD_PATH");
}

#[test]
fn activation_content_contains_the_provider_block() {
    let content = activation_content();
    assert!(content.contains(adguard_dns_server_config()));
    assert!(content.contains(default_template()));
    assert_eq!(content, format!("{} {}", default_template(), adguard_dns_server_config()));
}

#[test]
fn deactivation_content_lacks_the_provider_block() {
    let content = deactivation_content();
    assert!(!content.contains(adguard_dns_server_config()));
    assert_eq!(content, default_template());
}

#[test]
fn provider_block_holds_the_two_nameserver_lines() {
    let block = adguard_dns_server_config();
    assert!(block.contains("nameserver 94.140.14.14"));
    assert!(block.contains("nameserver 94.149.15.15"));
}

#[test]
fn activating_twice_writes_the_same_content_as_once() {
    // each run truncates the file and writes the whole template afresh
    let first = activation_content();
    let second = activation_content();
    assert_eq!(first, second);
}

#[test]
fn no_argument_prints_help() {
    assert_eq!(parse_args(&args(&["prog"])), Action::PrintHelp);
    assert_eq!(
        help_message(),
        "\nUsage: sudo cfg-adguard-dns [options...]\n\n        --activate      Activate AdGuard DNS server \n        --deactivate    Deactivate AdGuard DNS server \n        --status        Shows wether AdGuard DNS server is activated or not\n        --help          Display the current help message\n\nDisclaimer: Using this tool will restore the /etc/resolvconf/resolv.conf.d/head file to its default state.\n"
    );
}

#[test]
fn unknown_argument_is_reported_and_writes_nothing() {
    let action = parse_args(&args(&["prog", "bogus"]));
    assert_eq!(action, Action::Unknown);
    assert_eq!(
        unknown_arg_message(),
        "Unknown argument. Try `cfg-adguard-dns --help` for more information"
    );
    assert_eq!(file_write_for(&action), None);
}

#[test]
fn each_verb_parses_in_both_spellings() {
    assert_eq!(parse_args(&args(&["prog", "--help"])), Action::PrintHelp);
    assert_eq!(parse_args(&args(&["prog", "--activate"])), Action::Activate);
    assert_eq!(parse_args(&args(&["prog", "activate"])), Action::Activate);
    assert_eq!(parse_args(&args(&["prog", "--deactivate"])), Action::Deactivate);
    assert_eq!(parse_args(&args(&["prog", "deactivate"])), Action::Deactivate);
    assert_eq!(parse_args(&args(&["prog", "--status"])), Action::Status);
    assert_eq!(parse_args(&args(&["prog", "status"])), Action::Status);
}

#[test]
fn verb_matching_is_exact_and_case_sensitive() {
    assert_eq!(parse_args(&args(&["prog", "Activate"])), Action::Unknown);
    assert_eq!(parse_args(&args(&["prog", "--ACTIVATE"])), Action::Unknown);
    assert_eq!(parse_args(&args(&["prog", "activate "])), Action::Unknown);
    assert_eq!(parse_args(&args(&["prog", "help"])), Action::Unknown);
    // only the first argument is examined
    assert_eq!(parse_args(&args(&["prog", "status", "junk"])), Action::Status);
}

#[test]
fn only_activate_and_deactivate_write_to_the_file() {
    assert_eq!(file_write_for(&Action::Activate), Some(activation_content()));
    assert_eq!(file_write_for(&Action::Deactivate), Some(deactivation_content()));
    assert_eq!(file_write_for(&Action::PrintHelp), None);
    assert_eq!(file_write_for(&Action::Status), None);
    assert_eq!(file_write_for(&Action::Unknown), None);
}
