use wws_worker::config::{broken_config_notice, Config};
use wws_worker::errors::{
    configure_error, from_runtime, staged, RuntimeError, Stage, WorkerError,
};
use wws_worker::features::{NnSupport, WasiNnConfig, WASI_NN_BACKEND_OPENVINO};

fn reason(error: WorkerError) -> String {
    match error {
        WorkerError::ConfigureRuntimeError { reason } => reason,
        other => panic!("{other:?}"),
    }
}

fn support(backends: &[&str]) -> NnSupport {
    WasiNnConfig { allowed_backends: backends.iter().map(|b| b.to_string()).collect() }.support()
}

#[test]
fn reasons_of_the_stages() {
    let texts = [
        (Stage::Engine, "error creating engine (x)"),
        (Stage::LinkPreview1, "error adding WASI to linker (x)"),
        (Stage::Environment, "error adding environment variables (x)"),
        (Stage::OpenDirectory, "error setting up ambient directories (x)"),
        (Stage::Preopen, "error preopening directories (x)"),
        (Stage::Preview2, "error setting up WASI preview 2: x"),
        (Stage::Instantiate, "error instantiating module (x)"),
        (Stage::DefaultExport, "error getting default export of module (x)"),
        (Stage::StartType, "error getting typed object (x)"),
        (Stage::Call, "error calling function (x)"),
        (Stage::Output, "error building output (x)"),
    ];
    for (stage, text) in texts {
        assert_eq!(reason(configure_error(stage, "x")), text);
    }
}

#[test]
fn staged_outcomes() {
    assert_eq!(staged(Stage::Output, Ok::<u8, String>(3)).unwrap(), 3);
    let failed = staged(Stage::Output, Err::<u8, String>("EOF".to_string()));
    assert_eq!(reason(failed.unwrap_err()), "error building output (EOF)");
}

#[test]
fn runtime_errors_are_kept() {
    assert_eq!(from_runtime(Ok::<u8, RuntimeError>(3)).unwrap(), 3);
    assert!(matches!(
        from_runtime(Err::<u8, RuntimeError>(RuntimeError::WasiContextError)),
        Err(WorkerError::RuntimeError(RuntimeError::WasiContextError))
    ));
    let failed = RuntimeError::Failed { reason: "no interpreter".to_string() };
    match from_runtime(Err::<u8, RuntimeError>(failed)) {
        Err(WorkerError::RuntimeError(RuntimeError::Failed { reason })) => {
            assert_eq!(reason, "no interpreter")
        }
        other => panic!("{other:?}"),
    }
}

#[test]
fn only_openvino_is_supported() {
    assert_eq!(WASI_NN_BACKEND_OPENVINO, "openvino");
    assert_eq!(support(&[]), NnSupport::Disabled);
    assert_eq!(support(&["openvino"]), NnSupport::OpenVino);
    assert_eq!(support(&["OpenVINO"]), NnSupport::Unsupported);
    assert_eq!(support(&["tensorflow"]), NnSupport::Unsupported);
    assert_eq!(support(&["openvino", "tensorflow"]), NnSupport::Unsupported);
    assert_eq!(support(&["openvino", "openvino"]), NnSupport::Unsupported);
}

#[test]
fn notice_of_an_unsupported_backend() {
    assert_eq!(
        NnSupport::Unsupported.notice().unwrap(),
        "❌ The only WASI-NN supported backend name is \"openvino\". Please, update your config."
    );
    assert_eq!(NnSupport::Disabled.notice(), None);
    assert_eq!(NnSupport::OpenVino.notice(), None);
}

#[test]
fn default_config_is_empty() {
    let config = Config::default();
    assert!(config.folders.is_none());
    assert!(config.features.wasi_nn.allowed_backends.is_empty());
}

#[test]
fn notice_of_a_broken_config() {
    assert_eq!(
        broken_config_notice("missing field"),
        "Error loading the worker configuration: missing field"
    );
}
