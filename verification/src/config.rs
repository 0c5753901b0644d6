//! Inference settings and their encoding for the native engine.
use vstd::prelude::*;

verus! {

/// Numeric precision that the engine computes with.
#[derive(Debug, Clone, Copy, PartialEq, Eq, Structural)]
pub enum PrecisionMode {
    Normal,
    Low,
    High,
}

/// Memory layout of image-like tensors.
#[derive(Debug, Clone, Copy, PartialEq, Eq, Structural)]
pub enum DataFormat {
    NCHW,
    NHWC,
    Auto,
}

/// How much memory the engine may trade for speed.
#[derive(Debug, Clone, Copy, PartialEq, Eq, Structural)]
pub enum MemoryMode {
    Normal,
    Low,
    High,
}

/// The device family the engine runs on.
#[derive(Debug, Clone, Copy, PartialEq, Eq, Structural)]
pub enum Backend {
    CPU,
    Metal,
    OpenCL,
    OpenGL,
    Vulkan,
    CUDA,
    CoreML,
}

impl PrecisionMode {
    /// The number the native interface uses for this mode.
    pub open spec fn spec_code(self) -> i32 {
        match self {
            PrecisionMode::Normal => 0,
            PrecisionMode::Low => 1,
            PrecisionMode::High => 2,
        }
    }

    pub fn code(self) -> (c: i32)
        ensures
            c == self.spec_code(),
    {
        match self {
            PrecisionMode::Normal => 0,
            PrecisionMode::Low => 1,
            PrecisionMode::High => 2,
        }
    }
}

impl DataFormat {
    /// The number the native interface uses for this format.
    pub open spec fn spec_code(self) -> i32 {
        match self {
            DataFormat::NCHW => 0,
            DataFormat::NHWC => 1,
            DataFormat::Auto => 2,
        }
    }

    pub fn code(self) -> (c: i32)
        ensures
            c == self.spec_code(),
    {
        match self {
            DataFormat::NCHW => 0,
            DataFormat::NHWC => 1,
            DataFormat::Auto => 2,
        }
    }
}

impl MemoryMode {
    /// The number the native interface uses for this mode.
    pub open spec fn spec_code(self) -> i32 {
        match self {
            MemoryMode::Normal => 0,
            MemoryMode::Low => 1,
            MemoryMode::High => 2,
        }
    }

    pub fn code(self) -> (c: i32)
        ensures
            c == self.spec_code(),
    {
        match self {
            MemoryMode::Normal => 0,
            MemoryMode::Low => 1,
            MemoryMode::High => 2,
        }
    }
}

impl Backend {
    /// The number the native interface uses for this backend.
    pub open spec fn spec_code(self) -> i32 {
        match self {
            Backend::CPU => 0,
            Backend::Metal => 1,
            Backend::OpenCL => 2,
            Backend::OpenGL => 3,
            Backend::Vulkan => 4,
            Backend::CUDA => 5,
            Backend::CoreML => 6,
        }
    }

    pub fn code(self) -> (c: i32)
        ensures
            c == self.spec_code(),
    {
        match self {
            Backend::CPU => 0,
            Backend::Metal => 1,
            Backend::OpenCL => 2,
            Backend::OpenGL => 3,
            Backend::Vulkan => 4,
            Backend::CUDA => 5,
            Backend::CoreML => 6,
        }
    }
}

impl Default for PrecisionMode {
    fn default() -> (m: Self)
        ensures
            m == PrecisionMode::Normal,
    {
        PrecisionMode::Normal
    }
}

impl Default for DataFormat {
    fn default() -> (f: Self)
        ensures
            f == DataFormat::NCHW,
    {
        DataFormat::NCHW
    }
}

impl Default for MemoryMode {
    fn default() -> (m: Self)
        ensures
            m == MemoryMode::Normal,
    {
        MemoryMode::Normal
    }
}

impl Default for Backend {
    fn default() -> (b: Self)
        ensures
            b == Backend::CPU,
    {
        Backend::CPU
    }
}

/// Settings an engine, a module or a session pool is created with.
#[derive(Debug, Clone)]
pub struct InferenceConfig {
    pub thread_count: i32,
    pub precision_mode: PrecisionMode,
    pub use_cache: bool,
    pub data_format: DataFormat,
    pub backend: Backend,
    pub memory_mode: MemoryMode,
}

/// The settings in the form the native interface takes them: every choice as its number.
#[derive(Debug, Clone, Copy, PartialEq, Eq, Structural)]
pub struct NativeConfig {
    pub thread_count: i32,
    pub precision_mode: i32,
    pub backend: i32,
    pub use_cache: bool,
    pub data_format: i32,
    pub memory_mode: i32,
}

impl InferenceConfig {
    /// The settings used where none are given: four threads, normal precision,
    /// no cache, NCHW layout, the CPU backend and normal memory use.
    pub open spec fn spec_default() -> InferenceConfig {
        InferenceConfig {
            thread_count: 4,
            precision_mode: PrecisionMode::Normal,
            use_cache: false,
            data_format: DataFormat::NCHW,
            backend: Backend::CPU,
            memory_mode: MemoryMode::Normal,
        }
    }

    /// The native form of these settings.
    pub open spec fn spec_to_ffi(self) -> NativeConfig {
        NativeConfig {
            thread_count: self.thread_count,
            precision_mode: self.precision_mode.spec_code(),
            backend: self.backend.spec_code(),
            use_cache: self.use_cache,
            data_format: self.data_format.spec_code(),
            memory_mode: self.memory_mode.spec_code(),
        }
    }

    /// The settings that a call given `config` uses: those given, else the default ones.
    pub open spec fn spec_or_default(config: Option<InferenceConfig>) -> InferenceConfig {
        match config {
            Some(c) => c,
            None => InferenceConfig::spec_default(),
        }
    }

    pub fn new() -> (c: Self)
        ensures
            c == InferenceConfig::spec_default(),
    {
        Self::default()
    }

    pub fn with_threads(self, threads: i32) -> (c: Self)
        ensures
            c == (InferenceConfig { thread_count: threads, ..self }),
    {
        let mut c = self;
        c.thread_count = threads;
        c
    }

    pub fn with_precision(self, precision: PrecisionMode) -> (c: Self)
        ensures
            c == (InferenceConfig { precision_mode: precision, ..self }),
    {
        let mut c = self;
        c.precision_mode = precision;
        c
    }

    pub fn with_backend(self, backend: Backend) -> (c: Self)
        ensures
            c == (InferenceConfig { backend: backend, ..self }),
    {
        let mut c = self;
        c.backend = backend;
        c
    }

    pub fn with_data_format(self, format: DataFormat) -> (c: Self)
        ensures
            c == (InferenceConfig { data_format: format, ..self }),
    {
        let mut c = self;
        c.data_format = format;
        c
    }

    pub fn with_memory(self, memory: MemoryMode) -> (c: Self)
        ensures
            c == (InferenceConfig { memory_mode: memory, ..self }),
    {
        let mut c = self;
        c.memory_mode = memory;
        c
    }

    /// Encodes the settings for the native interface.
    pub fn to_ffi(&self) -> (n: NativeConfig)
        ensures
            n == self.spec_to_ffi(),
    {
        NativeConfig {
            thread_count: self.thread_count,
            precision_mode: self.precision_mode.code(),
            backend: self.backend.code(),
            use_cache: self.use_cache,
            data_format: self.data_format.code(),
            memory_mode: self.memory_mode.code(),
        }
    }

    /// The native form of the settings a call given `config` uses.
    pub fn native_or_default(config: Option<InferenceConfig>) -> (n: NativeConfig)
        ensures
            n == InferenceConfig::spec_or_default(config).spec_to_ffi(),
            config matches Some(c) ==> n == c.spec_to_ffi(),
            config is None ==> n == InferenceConfig::spec_default().spec_to_ffi(),
    {
        let cfg = match config {
            Some(c) => c,
            None => InferenceConfig::default(),
        };
        cfg.to_ffi()
    }
}

impl Default for InferenceConfig {
    fn default() -> (c: Self)
        ensures
            c == InferenceConfig::spec_default(),
    {
        InferenceConfig {
            thread_count: 4,
            precision_mode: PrecisionMode::Normal,
            use_cache: false,
            data_format: DataFormat::NCHW,
            backend: Backend::CPU,
            memory_mode: MemoryMode::Normal,
        }
    }
}

} // verus!
