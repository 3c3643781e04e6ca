use threadrunner::config::{
    available_backends, default_backend, default_model_path, get_backend_kind, get_model_path,
    kind_name, parse_backend, parse_backend_env, socket_path, ConfigError, PathError, SOCKET_PATH,
};
use threadrunner::model::BackendKind;
use threadrunner::Error;

#[test]
fn socket_is_fixed() {
    assert_eq!(socket_path(), "/tmp/threadrunner.sock");
    assert_eq!(SOCKET_PATH, "/tmp/threadrunner.sock");
}

#[test]
fn backend_names() {
    assert_eq!(available_backends(), vec!["dummy", "native"]);
    assert_eq!(default_backend(), "native");
    assert_eq!(kind_name(BackendKind::Dummy), "dummy");
    assert_eq!(parse_backend("dummy"), Ok(BackendKind::Dummy));
    assert_eq!(parse_backend("native"), Ok(BackendKind::Native));
    assert_eq!(parse_backend("Dummy"), Err(Error::Unknown));
    assert_eq!(parse_backend("gpt"), Err(Error::Unknown));
}

#[test]
fn env_backend_ignores_case() {
    assert_eq!(parse_backend_env("DUMMY"), Ok(BackendKind::Dummy));
    assert_eq!(parse_backend_env("Native"), Ok(BackendKind::Native));
    assert_eq!(
        parse_backend_env("Llama"),
        Err(Error::ModelLoad("unknown backend 'llama'; available backends: dummy, native".to_string()))
    );
    assert_eq!(get_backend_kind(None), Ok(BackendKind::Native));
    assert_eq!(get_backend_kind(Some("dUmMy")), Ok(BackendKind::Dummy));
}

#[test]
fn model_paths() {
    assert_eq!(get_model_path(BackendKind::Dummy, Some("/x.gguf"), None), Ok("/dev/null".to_string()));
    assert_eq!(get_model_path(BackendKind::Native, Some("/x.gguf"), None), Ok("/x.gguf".to_string()));
    assert_eq!(
        get_model_path(BackendKind::Native, None, Some("/home/ada")),
        Ok("/home/ada/.threadrunner/models/llama2-7b.Q4_K_M.gguf".to_string())
    );
    assert_eq!(
        default_model_path(Some("/root/")),
        Ok("/root/.threadrunner/models/llama2-7b.Q4_K_M.gguf".to_string())
    );
    assert!(matches!(get_model_path(BackendKind::Native, None, None), Err(Error::ModelLoad(_))));
}

#[test]
fn config_errors_describe_themselves() {
    assert_eq!(ConfigError::HomeDirectoryNotFound.describe(), "Failed to determine home directory");
    assert_eq!(ConfigError::CurrentExeNotFound.describe(), "Failed to determine current executable path");
    assert_eq!(PathError::InvalidExePath("/".to_string()).describe(), "Invalid executable path: /");
    assert_eq!(PathError::DaemonExeResolution.describe(), "Failed to resolve daemon executable path");
}
