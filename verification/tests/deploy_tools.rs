use arcs_deploy::decimal::{decimal_chars, parse_u32, signed_decimal_chars};
use arcs_deploy::docker::{
    build_step, challenge_path, container_image, fetch_chall_folder_names, find_container, pull_step, runs_image,
    FolderListing, ResultBufferError, StreamItem,
};
use arcs_deploy::env::{check_required, EnvVarErr};
use arcs_deploy::json::JsonValue;
use arcs_deploy::k8s::{
    choose_params, create_schema_deployment, create_schema_service, delete_secret_outcome, dockerconfig,
    fetch_challenge_params, generate_registry_secret, is_admin_only, service_name, service_port, ChallengeParams,
    ChallengeParamsError, Deploy,
};
use arcs_deploy::logging::{
    log_file_banner, log_files_to_open, prefix_replace, resolve_targets, with_path_prefix_stripped, write_all_step,
    LevelStringStruct, LogLevel, LogLocationTarget, WritableTarget, WriteAllStep, WriteFailure,
};
use arcs_deploy::paths::{after_last_slash, path_of, path_push};
use arcs_deploy::static_files::{chall_yaml_path, s3_object_path, trim_matches_char, UploadTally};
use arcs_deploy::docker::{lines_of, BuildInfo, ResultBuffer};
use arcs_deploy::shared::PoisonErrorWrapper;
use arcs_deploy::yaml::deploy::NetworkProtocol;
use base64::Engine;

fn chars(s: &str) -> Vec<char> {
    s.chars().collect()
}

#[test]
fn paths_push_like_pathbuf() {
    let mut p = String::from("registry.io");
    path_push(&mut p, "chall");
    assert_eq!(p, "registry.io/chall");
    let mut p = String::from("dir/");
    path_push(&mut p, "x");
    assert_eq!(p, "dir/x");
    let mut p = String::from("dir");
    path_push(&mut p, "/abs");
    assert_eq!(p, "/abs");
    let mut p = String::new();
    path_push(&mut p, "x");
    assert_eq!(p, "x");
    assert_eq!(path_of(&["a", "b", "c"]), "a/b/c");
    assert_eq!(after_last_slash("a/b/c.txt"), "c.txt");
    assert_eq!(after_last_slash("c.txt"), "c.txt");
}

#[test]
fn challenge_description_path() {
    assert_eq!(chall_yaml_path("/challs", "web1"), "/challs/web1/chall.yaml");
    assert_eq!(chall_yaml_path("/challs/", "web1"), "/challs/web1/chall.yaml");
}

#[test]
fn object_store_paths() {
    assert_eq!(trim_matches_char("//a/b//", '/'), "a/b");
    assert_eq!(trim_matches_char("///", '/'), "");
    assert_eq!(s3_object_path("/web1/", "files/handout.zip"), "/web1/handout.zip");
    assert_eq!(s3_object_path("web1", "handout.zip"), "/web1/handout.zip");
}

#[test]
fn uploads_are_tallied() {
    let mut tally = UploadTally::new();
    tally.record("a".to_string(), Some(200));
    tally.record("b".to_string(), Some(200));
    assert_eq!(tally.finish(), Ok(vec!["a".to_string(), "b".to_string()]));
    let mut tally = UploadTally::new();
    tally.record("a".to_string(), Some(200));
    tally.record("b".to_string(), Some(403));
    tally.record("c".to_string(), None);
    assert_eq!(tally.finish(), Err(vec!["b".to_string(), "c".to_string()]));
}

#[test]
fn image_names() {
    assert_eq!(challenge_path("reg.io", "web1", None), "reg.io/web1");
    assert_eq!(challenge_path("reg.io", "web1", Some("bot")), "reg.io/web1/bot");
    assert_eq!(container_image("reg.io", "web1"), "reg.io/web1");
    assert!(runs_image("reg.io/web1@sha256:abc", "reg.io/web1"));
    assert!(!runs_image("reg.io/web2", "reg.io/web1"));
    let images = vec!["other".to_string(), "reg.io/web1@sha256:1".to_string(), "reg.io/web1".to_string()];
    assert_eq!(find_container(&images, "reg.io", "web1"), Some(1));
    assert_eq!(find_container(&images, "reg.io", "web9"), None);
}

#[test]
fn challenge_folders_need_a_dockerfile() {
    let listing = vec![
        Ok(FolderListing { name: Some("web1".to_string()), is_dir: true, entries: vec!["Dockerfile".to_string(), "app.py".to_string()] }),
        Ok(FolderListing { name: Some("notes.txt".to_string()), is_dir: false, entries: vec![] }),
        Ok(FolderListing { name: Some("rev1".to_string()), is_dir: true, entries: vec!["chall.yaml".to_string()] }),
        Ok(FolderListing { name: Some("pwn1".to_string()), is_dir: true, entries: vec!["Dockerfile".to_string()] }),
    ];
    assert_eq!(fetch_chall_folder_names(&listing), Ok(vec!["web1".to_string(), "pwn1".to_string()]));
    let broken = vec![
        Ok(FolderListing { name: None, is_dir: true, entries: vec!["Dockerfile".to_string()] }),
        Err("Error reading directory".to_string()),
    ];
    assert_eq!(fetch_chall_folder_names(&broken), Err("Error reading challenge name".to_string()));
    let unreadable: Vec<Result<FolderListing, String>> = vec![Err("Error traversing directory".to_string())];
    assert_eq!(fetch_chall_folder_names(&unreadable), Err("Error traversing directory".to_string()));
}

#[test]
fn build_and_pull_streams() {
    assert_eq!(build_step(StreamItem::Update), Ok(()));
    assert_eq!(build_step(StreamItem::Error("bad step".to_string())), Err("bad step".to_string()));
    assert_eq!(build_step(StreamItem::Failed("io".to_string())), Err("io".to_string()));
    assert_eq!(pull_step(StreamItem::Error("bad".to_string())), Err("bad".to_string()));
    assert_eq!(pull_step(StreamItem::Failed("io".to_string())), Err("io".to_string()));
    assert_eq!(pull_step(StreamItem::Digest), Ok(()));
}

#[test]
fn build_errors_keep_their_details() {
    let e = ResultBufferError::from_report("failed".to_string(), Some((Some(2), Some("detail".to_string()))));
    assert_eq!(e.code, Some(2));
    assert_eq!(e.detail_message.as_deref(), Some("detail"));
    let e = ResultBufferError::from_report("failed".to_string(), None);
    assert_eq!(e.error_text, "failed");
    assert_eq!(e.code, None);
}

const CHALL_YAML: &str = "name: x\ndeploy:\n    nc:\n        expose: 1337/tcp\n        replicas: 2\n";

#[test]
fn challenge_parameters_are_read() {
    let file = fetch_challenge_params(CHALL_YAML).expect("valid description");
    assert!(file.deploy.web.is_none());
    let nc = file.deploy.nc.expect("nc service");
    assert_eq!(nc.expose, NetworkProtocol::Tcp(1337));
    assert_eq!(nc.replicas, 2);
    let chosen = choose_params(&file.deploy).expect("a service");
    assert_eq!(chosen.replicas, 2);
}

#[test]
fn challenge_parameter_errors() {
    assert!(matches!(fetch_challenge_params("name: x\n"), Err(ChallengeParamsError::MissingDeploy)));
    assert!(matches!(fetch_challenge_params("[1, 2]"), Err(ChallengeParamsError::NotMapping(_))));
    assert!(matches!(fetch_challenge_params("deploy: {web: {replicas: 2}}"), Err(ChallengeParamsError::BadDeploy(_))));
    assert!(matches!(fetch_challenge_params("{unclosed"), Err(ChallengeParamsError::Unparsable(_))));
}

#[test]
fn web_service_is_preferred() {
    let web = ChallengeParams { expose: NetworkProtocol::Tcp(80), replicas: 1 };
    let nc = ChallengeParams { expose: NetworkProtocol::Udp(53), replicas: 4 };
    let both = Deploy { web: Some(web), admin: None, nc: Some(nc) };
    assert_eq!(choose_params(&both).unwrap().expose, NetworkProtocol::Tcp(80));
    let none = Deploy { web: None, admin: None, nc: None };
    assert_eq!(choose_params(&none).unwrap_err(), "Error creating service schema, check yaml");
}

#[test]
fn service_object() {
    let params = ChallengeParams { expose: NetworkProtocol::Udp(53), replicas: 1 };
    assert_eq!(service_name("dns"), "dns-service");
    let expected = JsonValue::quad(
        "apiVersion", JsonValue::string("v1"),
        "kind", JsonValue::string("Service"),
        "metadata", JsonValue::pair(
            "name", JsonValue::string("dns-service"),
            "labels", JsonValue::single("app", JsonValue::string("dns-service")),
        ),
        "spec", JsonValue::triple(
            "ports", JsonValue::one_item(JsonValue::triple(
                "port", JsonValue::UInt(53),
                "targetPort", JsonValue::UInt(53),
                "protocol", JsonValue::string("UDP"),
            )),
            "selector", JsonValue::single("app", JsonValue::string("dns")),
            "type", JsonValue::string("NodePort"),
        ),
    );
    assert_eq!(create_schema_service("dns", &params), expected);
}

#[test]
fn deployment_object_uses_the_registry_image() {
    let params = ChallengeParams { expose: NetworkProtocol::Tcp(8080), replicas: 3 };
    let deployment = create_schema_deployment("web1", &params, "reg.io/ctf");
    match deployment {
        JsonValue::Object(members) => {
            assert_eq!(members[0], ("apiVersion".to_string(), JsonValue::string("apps/v1")));
            assert_eq!(members[1], ("kind".to_string(), JsonValue::string("Deployment")));
            let spec = &members[3].1;
            match spec {
                JsonValue::Object(spec_members) => {
                    assert_eq!(spec_members[0], ("replicas".to_string(), JsonValue::UInt(3)));
                },
                _ => panic!("spec is an object"),
            }
        },
        _ => panic!("deployment is an object"),
    }
    let text = format!("{:?}", create_schema_deployment("web1", &params, "reg.io/ctf"));
    assert!(text.contains("reg.io/ctf/web1"));
    assert!(text.contains("container-registry-credentials"));
}

#[test]
fn registry_secret_holds_the_encoded_configuration() {
    let config = dockerconfig("reg.io", "user", "pass");
    assert_eq!(
        config,
        "{\"auths\":{\"reg.io\":{\"username\":\"user\",\"password\":\"pass\",\"auth\":\"dXNlcjpwYXNz\"}}}",
    );
    let encoded = base64::engine::general_purpose::STANDARD.encode(config.as_bytes());
    let expected = JsonValue::quint(
        "apiVersion", JsonValue::string("v1"),
        "data", JsonValue::single(".dockerconfigjson", JsonValue::Str(encoded)),
        "kind", JsonValue::string("Secret"),
        "metadata", JsonValue::pair(
            "name", JsonValue::string("container-registry-credentials"),
            "namespace", JsonValue::string("default"),
        ),
        "type", JsonValue::string("kubernetes.io/dockerconfigjson"),
    );
    assert_eq!(generate_registry_secret("reg.io", "user", "pass"), expected);
}

#[test]
fn service_port_is_the_first_node_port() {
    assert_eq!(service_port(Some(Some(vec![Some(30080), Some(30081)]))), Ok(30080));
    assert_eq!(service_port(Some(Some(vec![None]))), Err("Error retrieving service node_port".to_string()));
    assert_eq!(service_port(Some(None)), Err("Error retrieving service ports".to_string()));
    assert_eq!(service_port(None), Err("No service spec found".to_string()));
}

#[test]
fn secret_deletion_needs_a_success_status() {
    assert_eq!(delete_secret_outcome(Some(true)), Ok("Successfully deleted secret".to_string()));
    assert_eq!(delete_secret_outcome(Some(false)), Err("Error deleting secret".to_string()));
    assert_eq!(delete_secret_outcome(None), Err("Error deleting secret".to_string()));
}

#[test]
fn missing_variables_are_listed() {
    let err = EnvVarErr::new([None, Some("S3_REGION"), Some("CHALL_FOLDER")]);
    assert_eq!(err.to_text(), "S3_REGION, CHALL_FOLDER");
    assert!(check_required([None, None]).is_ok());
    match check_required([Some("A"), None, Some("B")]) {
        Err(e) => assert_eq!(e.to_text(), "A, B"),
        Ok(()) => panic!("expected missing variables"),
    }
}

#[test]
fn level_labels() {
    let labels = LevelStringStruct::default();
    assert_eq!(labels.get_level(LogLevel::Error), "\x1b[1m\x1b[31mERROR\x1b[0m");
    assert_eq!(labels.get_level(LogLevel::Warn), "\x1b[1m\x1b[33mWARN \x1b[0m");
    assert_eq!(labels.get_level(LogLevel::Trace), "\x1b[1m\x1b[35mTRACE\x1b[0m");
}

#[test]
fn record_paths_lose_their_prefix() {
    let prefix = ("/home/ci/".to_string(), "src:".to_string());
    assert_eq!(with_path_prefix_stripped(Some("/home/ci/a.rs"), Some(&prefix)), Some(("src:", "a.rs")));
    assert_eq!(with_path_prefix_stripped(Some("/tmp/a.rs"), Some(&prefix)), Some(("", "/tmp/a.rs")));
    assert_eq!(with_path_prefix_stripped(Some("/tmp/a.rs"), None), Some(("", "/tmp/a.rs")));
    assert_eq!(with_path_prefix_stripped(None, Some(&prefix)), None);
}

#[test]
fn prefix_replacement_is_split_at_the_first_arrow() {
    assert_eq!(prefix_replace("/a->b->c"), Some(("/a".to_string(), "b->c".to_string())));
    assert_eq!(prefix_replace("no arrow"), None);
}

#[test]
fn log_banner_is_centred() {
    let banner = log_file_banner("Jan 01 00:00:00.000");
    assert_eq!(banner, format!("{:-^50}\n", "Logging started at Jan 01 00:00:00.000"));
    assert_eq!(banner.chars().count(), 51);
}

#[test]
fn each_log_file_is_opened_once() {
    let targets = vec![
        LogLocationTarget::StdOut,
        LogLocationTarget::File("./all.log"),
        LogLocationTarget::File("./err.log"),
        LogLocationTarget::File("./all.log"),
        LogLocationTarget::StdErr,
    ];
    let files = log_files_to_open(&targets);
    assert_eq!(files, vec!["./all.log".to_string(), "./err.log".to_string()]);
    let opened = vec!["./err.log".to_string()];
    assert_eq!(
        resolve_targets(&targets, &opened),
        vec![WritableTarget::StdOut, WritableTarget::File(0), WritableTarget::StdErr],
    );
}

#[test]
fn whole_buffer_writes() {
    assert_eq!(write_all_step(10, Ok(4)), WriteAllStep::Continue(6));
    assert_eq!(write_all_step(10, Ok(0)), WriteAllStep::Fail(WriteFailure::WriteZero));
    assert_eq!(write_all_step(10, Err(WriteFailure::Interrupted)), WriteAllStep::Retry);
    assert_eq!(
        write_all_step(10, Err(WriteFailure::Other("disk".to_string()))),
        WriteAllStep::Fail(WriteFailure::Other("disk".to_string())),
    );
}

#[test]
fn decimal_text() {
    assert_eq!(decimal_chars(0), chars("0"));
    assert_eq!(decimal_chars(1234567890), chars("1234567890"));
    assert_eq!(signed_decimal_chars(-42), chars("-42"));
    assert_eq!(signed_decimal_chars(i64::MIN), chars(&i64::MIN.to_string()));
    assert_eq!(parse_u32(&chars("+17")), Some(17));
    assert_eq!(parse_u32(&chars("4294967296")), None);
    assert_eq!(parse_u32(&chars("")), None);
}

#[test]
fn build_report_lists_ids_and_output() {
    let mut buffer = ResultBuffer::new();
    assert_eq!(buffer.report(), "Build completed successfully. \n");
    buffer.image_id(Some("sha256:a".to_string()));
    buffer.image_id(None);
    buffer.image_id(Some("sha256:b".to_string()));
    buffer.stream_in("Step 1/2\r\n");
    buffer.stream_in("Step 2/2\n");
    buffer.update_progress_string("50%".to_string());
    assert_eq!(buffer.progress_string().map(String::as_str), Some("50%"));
    assert_eq!(
        buffer.report(),
        "Build completed successfully. sha256:a, sha256:b)\n\nStream output:\n\tStep 1/2\n\tStep 2/2\n",
    );
    buffer.add_error("failed".to_string(), None);
    assert_eq!(buffer.report(), "");
    assert_eq!(lines_of("a\r\nb\n\nc"), vec!["a", "b", "", "c"]);
    assert_eq!(lines_of(""), Vec::<String>::new());
    assert_eq!(lines_of("x\n"), vec!["x"]);
}

#[test]
fn wrapped_errors_keep_their_text() {
    let wrapped = PoisonErrorWrapper::from_message("poisoned lock: another task failed inside");
    assert_eq!(wrapped.text(), "\"poisoned lock: another task failed inside\"");
}

#[test]
fn build_info_feeds_the_buffer() {
    let mut buffer = ResultBuffer::new();
    buffer.process_build_info(BuildInfo {
        id: None,
        stream: Some("Step 1/1\n".to_string()),
        error: None,
        error_detail: None,
        status: None,
        progress: Some("[==>   ]".to_string()),
    });
    assert_eq!(buffer.progress_string().map(String::as_str), Some("[==>   ]"));
    assert_eq!(buffer.report(), "Build completed successfully. \n\nStream output:\n\tStep 1/1\n");
    buffer.process_build_info(BuildInfo {
        id: None,
        stream: None,
        error: Some("no space left".to_string()),
        error_detail: Some((Some(1), Some("disk full".to_string()))),
        status: None,
        progress: None,
    });
    assert_eq!(buffer.progress_string().map(String::as_str), Some("[==>   ]"));
    assert_eq!(buffer.report(), "");
}

#[test]
fn admin_only_challenges_are_told_apart() {
    let bot = ChallengeParams { expose: NetworkProtocol::Tcp(3000), replicas: 1 };
    let web = ChallengeParams { expose: NetworkProtocol::Tcp(80), replicas: 1 };
    assert!(is_admin_only(&Deploy { web: None, admin: Some(bot), nc: None }));
    let bot = ChallengeParams { expose: NetworkProtocol::Tcp(3000), replicas: 1 };
    assert!(!is_admin_only(&Deploy { web: Some(web), admin: Some(bot), nc: None }));
    assert!(!is_admin_only(&Deploy { web: None, admin: None, nc: None }));
}

#[test]
fn challenge_parameter_errors_have_messages() {
    let message = |text: &str| match fetch_challenge_params(text) {
        Err(e) => e.message(),
        Ok(_) => panic!("expected an error"),
    };
    assert_eq!(message("name: x\n"), "missing field `deploy`");
    assert_eq!(message("[1, 2]"), "chall.yaml should be a dictionary, not a list.");
    assert_eq!(message("deploy: 5"), "Deploy should be a dictionary, not a number.");
    assert!(!message("{unclosed").is_empty());
}
