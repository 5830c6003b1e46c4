//! Optional features of a worker: folders of the host and neural networks.
use vstd::prelude::*;

verus! {

/// The one WASI-NN backend that workers can ask for.
pub const WASI_NN_BACKEND_OPENVINO: &'static str = "openvino";

/// A folder of the host that the worker sees.
#[derive(Debug)]
pub struct Folder {
    /// Where it lies, relative to the directory of the worker.
    pub from: Vec<u8>,
    /// Where the worker sees it.
    pub to: String,
}

/// The WASI-NN settings of a worker.
#[derive(Debug)]
pub struct WasiNnConfig {
    /// The backends that the worker may use.
    pub allowed_backends: Vec<String>,
}

/// What becomes of the WASI-NN settings of a worker.
#[derive(Clone, Copy, Debug, PartialEq, Eq, Structural)]
pub enum NnSupport {
    /// No backend is asked for.
    Disabled,
    /// What is asked for is not there: the worker runs without, and its owner is
    /// told.
    Unsupported,
    /// The worker gets the OpenVINO backend.
    OpenVino,
}

/// What the list of allowed backends comes to: OpenVINO alone is supported.
pub open spec fn nn_support(backends: Seq<String>) -> NnSupport {
    if backends.len() == 0 {
        NnSupport::Disabled
    } else if backends.len() == 1 && backends[0]@ == WASI_NN_BACKEND_OPENVINO@ {
        NnSupport::OpenVino
    } else {
        NnSupport::Unsupported
    }
}

impl NnSupport {
    /// The line that tells the owner that what is asked for is not there.
    pub fn notice(self) -> (line: Option<String>)
        ensures
            line is Some <==> self is Unsupported,
            line matches Some(text) ==> text@
                == "❌ The only WASI-NN supported backend name is \""@ + WASI_NN_BACKEND_OPENVINO@
                + "\". Please, update your config."@,
    {
        match self {
            NnSupport::Unsupported => {
                let mut text = "❌ The only WASI-NN supported backend name is \"".to_owned();
                text.append(WASI_NN_BACKEND_OPENVINO);
                text.append("\". Please, update your config.");
                Some(text)
            },
            _ => None,
        }
    }
}

impl WasiNnConfig {
    /// What the settings come to.
    pub fn support(&self) -> (support: NnSupport)
        ensures
            support == nn_support(self.allowed_backends@),
    {
        if self.allowed_backends.len() == 0 {
            NnSupport::Disabled
        } else if self.allowed_backends.len() == 1 && self.allowed_backends[0]
            == WASI_NN_BACKEND_OPENVINO.to_owned() {
            NnSupport::OpenVino
        } else {
            NnSupport::Unsupported
        }
    }
}

/// Neural networks are offered if and only if the list is `openvino` alone, and are not
/// spoken of if and only if the list is empty.
pub proof fn law_nn_support(backends: Seq<String>)
    ensures
        nn_support(backends) == NnSupport::OpenVino <==> backends.len() == 1 && backends[0]@
            == "openvino"@,
        nn_support(backends) == NnSupport::Disabled <==> backends.len() == 0,
{
}

} // verus!
