use std::collections::HashMap;

use tari_deploy::account::{parse_account, Account};
use tari_deploy::cli::{choose_account, find_workspace_crate, WorkspaceCrate, MAX_WASM_SIZE};
use tari_deploy::cli_config::{config_override_parser, Config};
use tari_deploy::git::{find_git_root, AncestorDir};
use tari_deploy::project::{ProjectConfig, CONFIG_FILE_NAME};
use tari_deploy::session::{auth_accept_request, auth_login_request, session_from_token};
use tari_deploy::templates::{
    find_template_by_id, find_template_by_name, template_from_descriptor, template_ids, Collector,
    Template, TemplateFile,
};
use tari_deploy::uploader::{upload_outcome, LocalSwarmUploader, UploaderError};
use tari_deploy::util::{human_bytes, repo_user_and_name};
use tari_deploy::workspace::add_workspace_member;

#[test]
fn account_text_classifies_as_address_or_name() {
    let addr = "component_404730e4d1b915c0d08b05111f8f1c24b25e6fef9b92a7dbda9bbbe5f6e7a0b7";
    assert!(matches!(
        parse_account(&addr.to_string()),
        Account::Address { ref address } if address == addr
    ));
    let bare = "404730e4d1b915c0d08b05111f8f1c24b25e6fef9b92a7dbda9bbbe5f6e7a0b7";
    assert!(matches!(parse_account(&bare.to_string()), Account::Address { .. }));
    assert!(matches!(
        parse_account(&"alice".to_string()),
        Account::Name { ref name } if name == "alice"
    ));
    // right length, but not hex
    let not_hex = "z04730e4d1b915c0d08b05111f8f1c24b25e6fef9b92a7dbda9bbbe5f6e7a0b7";
    assert!(matches!(parse_account(&not_hex.to_string()), Account::Name { .. }));
    // wrong length
    assert!(matches!(
        parse_account(&"component_abc123".to_string()),
        Account::Name { .. }
    ));
}

#[test]
fn override_parser_accepts_exactly_one_assignment() {
    let parsed = config_override_parser("wasm_template_repository.branch=dev").unwrap();
    assert_eq!(parsed.key, "wasm_template_repository.branch");
    assert_eq!(parsed.value, "dev");

    assert_eq!(
        config_override_parser(""),
        Err("Override cannot be empty!".to_string())
    );
    assert_eq!(
        config_override_parser("no-assignment"),
        Err("Invalid override!".to_string())
    );
    assert_eq!(
        config_override_parser("a=b=c"),
        Err("Invalid override!".to_string())
    );
    assert_eq!(
        config_override_parser("unknown_key=v"),
        Err("Override key invalid: unknown_key".to_string())
    );
}

#[test]
fn config_defaults_point_at_the_template_repository() {
    let config = Config::default();
    assert_eq!(
        config.project_template_repository.url,
        "https://github.com/tari-project/wasm-template"
    );
    assert_eq!(config.project_template_repository.branch, "main");
    assert_eq!(config.project_template_repository.folder, "project_templates");
    assert_eq!(config.wasm_template_repository.folder, "wasm_templates");
    assert!(config.default_account.is_none());
}

#[test]
fn override_data_sets_each_known_key_and_refuses_others() {
    let mut config = Config::default();
    config.override_data("project_template_repository.url", "https://example.test/r").unwrap();
    assert_eq!(config.project_template_repository.url, "https://example.test/r");
    config.override_data("project_template_repository.branch", "next").unwrap();
    assert_eq!(config.project_template_repository.branch, "next");
    config.override_data("project_template_repository.folder", "p").unwrap();
    assert_eq!(config.project_template_repository.folder, "p");
    config.override_data("wasm_template_repository.url", "https://example.test/w").unwrap();
    assert_eq!(config.wasm_template_repository.url, "https://example.test/w");
    config.override_data("wasm_template_repository.branch", "wb").unwrap();
    assert_eq!(config.wasm_template_repository.branch, "wb");
    config.override_data("wasm_template_repository.folder", "wf").unwrap();
    assert_eq!(config.wasm_template_repository.folder, "wf");
    config.override_data("default_account", "alice").unwrap();
    assert!(matches!(
        config.default_account,
        Some(Account::Name { ref name }) if name == "alice"
    ));

    let err = config.override_data("nope", "v");
    assert_eq!(err, Err("Invalid key: nope".to_string()));
    // the refused override left everything standing
    assert_eq!(config.wasm_template_repository.folder, "wf");
}

#[test]
fn project_config_parses_its_default_account() {
    let project = ProjectConfig::default();
    assert_eq!(project.network().wallet_daemon_jrpc_address(), "http://127.0.0.1:9000");
    assert!(project.parsed_default_account().is_none());

    let project = ProjectConfig::new(
        tari_deploy::network::NetworkConfig::new("http://127.0.0.1:12047".to_string()),
        Some("alice".to_string()),
    );
    assert!(matches!(
        project.parsed_default_account(),
        Some(Account::Name { ref name }) if name == "alice"
    ));
    assert_eq!(CONFIG_FILE_NAME, "tari.config.toml");
}

#[test]
fn test_collect() {
    // The descriptors the collector's walk hands over, one per template
    // directory, become the offered templates.
    let descriptors = vec![
        ("template1", "description1", None),
        ("template2", "description2", None),
        (
            "template3",
            "description3",
            Some(HashMap::from([("templates_dir".to_string(), "templates".to_string())])),
        ),
    ];
    let mut result: Vec<Template> = Vec::new();
    for (name, description, extra) in descriptors {
        result.push(template_from_descriptor(
            format!("/repo/{name}"),
            Some(name.to_string()),
            TemplateFile {
                name: name.to_string(),
                description: description.to_string(),
                extra,
            },
        ));
    }
    assert_eq!(result.len(), 3);
    assert!(result
        .iter()
        .any(|t| t.name() == "template1" && t.description() == "description1"));
    assert!(result
        .iter()
        .any(|t| t.name() == "template2" && t.description() == "description2"));
    assert!(result.iter().any(|t| {
        t.name() == "template3"
            && t.description() == "description3"
            && t.extra().get("templates_dir").map(String::as_str) == Some("templates")
    }));
}

#[test]
fn descriptor_id_snake_cases_the_directory_name() {
    let template = template_from_descriptor(
        "/repo/MemeCoin".to_string(),
        Some("MemeCoin".to_string()),
        TemplateFile {
            name: "Meme Coin".to_string(),
            description: "d".to_string(),
            extra: None,
        },
    );
    assert_eq!(template.id(), "meme_coin");
    assert_eq!(template.path(), "/repo/MemeCoin");
    assert!(template.extra().is_empty());

    // no usable directory name: the declared name is snake-cased instead
    let template = template_from_descriptor(
        "/repo/x".to_string(),
        None,
        TemplateFile {
            name: "Meme Coin".to_string(),
            description: "d".to_string(),
            extra: None,
        },
    );
    assert_eq!(template.id(), "meme_coin");
}

fn sample_templates() -> Vec<Template> {
    vec![
        Template::new(
            "/a".to_string(),
            "counter".to_string(),
            "Counter".to_string(),
            "d1".to_string(),
            HashMap::new(),
        ),
        Template::new(
            "/b".to_string(),
            "fungible".to_string(),
            "Fungible".to_string(),
            "d2".to_string(),
            HashMap::new(),
        ),
        Template::new(
            "/c".to_string(),
            "counter".to_string(),
            "COUNTER".to_string(),
            "d3".to_string(),
            HashMap::new(),
        ),
    ]
}

#[test]
fn template_selection_is_case_insensitive_and_takes_the_last_match() {
    let templates = sample_templates();
    assert_eq!(find_template_by_name(&templates, "counter"), Some(2));
    assert_eq!(find_template_by_name(&templates, "Fungible"), Some(1));
    assert_eq!(find_template_by_name(&templates, "missing"), None);

    assert_eq!(find_template_by_id(&templates, "COUNTER"), Some(2));
    assert_eq!(find_template_by_id(&templates, "fungible"), Some(1));
    assert_eq!(find_template_by_id(&templates, "nope"), None);

    let ids = template_ids(&templates);
    assert_eq!(ids, vec!["counter", "fungible", "counter"]);
}

#[test]
fn collector_keeps_its_folder() {
    let collector = Collector::new("/repos/wasm_templates".to_string());
    assert_eq!(collector.local_folder(), "/repos/wasm_templates");
}

#[test]
fn workspace_member_is_added_once() {
    let mut members = vec!["templates/a".to_string()];
    assert!(add_workspace_member(&mut members, "templates/b".to_string()));
    assert_eq!(members, vec!["templates/a".to_string(), "templates/b".to_string()]);
    assert!(!add_workspace_member(&mut members, "templates/b".to_string()));
    assert_eq!(members.len(), 2);
}

#[test]
fn git_root_is_the_deepest_ancestor_with_git() {
    let walk = vec![
        AncestorDir { path: "/home/dev/proj/templates".to_string(), has_git: false },
        AncestorDir { path: "/home/dev/proj".to_string(), has_git: true },
        AncestorDir { path: "/home/dev".to_string(), has_git: true },
        AncestorDir { path: "/home".to_string(), has_git: false },
    ];
    assert_eq!(find_git_root(&walk), Some(1));

    let no_repo = vec![
        AncestorDir { path: "/tmp/x".to_string(), has_git: false },
        AncestorDir { path: "/tmp".to_string(), has_git: false },
    ];
    assert_eq!(find_git_root(&no_repo), None);
    assert_eq!(find_git_root(&vec![]), None);
}

#[test]
fn repo_url_splits_into_owner_and_name() {
    assert_eq!(
        repo_user_and_name("https://github.com/tari-project/wasm-template"),
        Ok(("tari-project".to_string(), "wasm-template".to_string()))
    );
    assert_eq!(
        repo_user_and_name("no-slashes"),
        Err("Failed to get repository owner from URL!".to_string())
    );
}

#[test]
fn human_bytes_renders_units() {
    assert_eq!(human_bytes(0), "0 B");
    assert_eq!(human_bytes(5_000_000), "4.8 MiB");
    assert_eq!(human_bytes(512), "512 B");
    // counts beyond the renderer's u32 input saturate at its maximum
    assert_eq!(
        human_bytes(u32::MAX as usize + 1),
        human_bytes(u32::MAX as usize)
    );
    assert!(MAX_WASM_SIZE == 5_000_000);
}

#[test]
fn session_requests_carry_the_fixed_scope_and_label() {
    let login = auth_login_request();
    assert_eq!(login.permissions, vec!["Admin".to_string()]);
    assert!(login.duration_secs.is_none());

    let accept = auth_accept_request("challenge-token".to_string());
    assert_eq!(accept.auth_token, "challenge-token");
    assert_eq!(accept.name, "default");

    let session = session_from_token("bearer-token".to_string());
    assert_eq!(session.permissions_token, "bearer-token");
}

#[test]
fn account_fallback_prefers_args_then_project_then_config() {
    let args = Some(Account::Name { name: "a".to_string() });
    let project = Some(Account::Name { name: "p".to_string() });
    let config = Some(Account::Name { name: "c".to_string() });
    assert_eq!(
        choose_account(args.clone(), project.clone(), config.clone()),
        args
    );
    assert_eq!(choose_account(None, project.clone(), config.clone()), project);
    assert_eq!(choose_account(None, None, config.clone()), config);
    assert_eq!(choose_account(None, None, None), None);
}

#[test]
fn workspace_crate_lookup_is_case_insensitive_and_takes_the_last_match() {
    let crates = vec![
        WorkspaceCrate { member: "templates/counter".to_string(), name: "counter".to_string() },
        WorkspaceCrate { member: "templates/other".to_string(), name: "other".to_string() },
        WorkspaceCrate { member: "counter2".to_string(), name: "Counter".to_string() },
    ];
    assert_eq!(find_workspace_crate(&crates, "COUNTER"), Some(2));
    assert_eq!(find_workspace_crate(&crates, "other"), Some(1));
    assert_eq!(find_workspace_crate(&crates, "absent"), None);
}

#[test]
fn upload_outcome_requires_success_and_a_url() {
    assert_eq!(
        upload_outcome(true, Some("http://swarm/tpl/1".to_string()), String::new()),
        Ok("http://swarm/tpl/1".to_string())
    );
    assert_eq!(
        upload_outcome(false, None, "disk full".to_string()),
        Err(UploaderError::UploadFailed { message: "disk full".to_string() })
    );
    assert_eq!(
        upload_outcome(true, None, String::new()),
        Err(UploaderError::UploadFailed {
            message: "Missing template URL in response!".to_string()
        })
    );

    let uploader = LocalSwarmUploader::new("http://127.0.0.1:8080/upload".to_string());
    assert_eq!(uploader.endpoint(), "http://127.0.0.1:8080/upload");
}
