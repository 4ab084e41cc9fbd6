use mdbook_docker_run::cli::{
    supports_renderer, Command, Directive, InstallCommand, Options, SupportsCommand,
};
use mdbook_docker_run::config::{
    command_name, default_endpoint, label, resolve_endpoint, resolve_prefix, Config,
};

#[test]
fn the_plugin_names_itself_after_its_label() {
    assert_eq!(command_name(), "docker-run");
    assert_eq!(label(), "docker-run");
}

#[test]
fn configured_endpoint_wins() {
    let r = resolve_endpoint(
        &Some("tcp://engine:2375".to_string()),
        Some("unix:///tmp/sock".to_string()),
    );
    assert_eq!(r, "tcp://engine:2375");
}

#[test]
fn environment_endpoint_is_the_fallback() {
    let r = resolve_endpoint(&None, Some("unix:///tmp/sock".to_string()));
    assert_eq!(r, "unix:///tmp/sock");
}

#[test]
fn endpoint_defaults_to_the_local_socket() {
    assert_eq!(resolve_endpoint(&None, None), default_endpoint());
    assert_eq!(resolve_endpoint(&None, None), "unix:///run/docker.sock");
}

#[test]
fn prefix_defaults_to_the_current_directory() {
    assert_eq!(resolve_prefix(&None), ".");
    assert_eq!(resolve_prefix(&Some("book".to_string())), "book");
}

#[test]
fn default_config_is_empty() {
    let c = Config::default();
    assert_eq!(
        c,
        Config { docker: None, image: None, prefix: None, parallel: 0 }
    );
}

#[test]
fn every_renderer_is_supported() {
    assert!(supports_renderer("html"));
    assert!(supports_renderer("anything"));
}

#[test]
fn no_subcommand_means_processing() {
    let o = Options { command: None };
    assert_eq!(o.directive(), Directive::Process);
    let o = Options { command: Some(Command::Process) };
    assert_eq!(o.directive(), Directive::Process);
}

#[test]
fn supports_subcommand_carries_the_renderer() {
    let o = Options {
        command: Some(Command::Supports(SupportsCommand { renderer: "html".to_string() })),
    };
    assert_eq!(o.directive(), Directive::Supports { renderer: "html".to_string() });
}

#[test]
fn install_subcommand_is_acknowledged() {
    let o = Options {
        command: Some(Command::Install(InstallCommand { assets: Some("a".to_string()) })),
    };
    assert_eq!(o.directive(), Directive::Install);
}
