use mnn::{Backend, DataFormat, InferenceConfig, MemoryMode, NativeConfig, PrecisionMode};

#[test]
fn test_config_default() {
    let config = InferenceConfig::default();
    assert_eq!(config.thread_count, 4);
    assert_eq!(config.precision_mode, PrecisionMode::Normal);
}

#[test]
fn test_config_builder() {
    let config = InferenceConfig::new()
        .with_threads(8)
        .with_precision(PrecisionMode::High)
        .with_backend(Backend::Metal);

    assert_eq!(config.thread_count, 8);
    assert_eq!(config.precision_mode, PrecisionMode::High);
    assert_eq!(config.backend, Backend::Metal);
}

#[test]
fn new_equals_default() {
    let a = InferenceConfig::new();
    let b = InferenceConfig::default();
    assert_eq!(a.to_ffi(), b.to_ffi());
    assert!(!a.use_cache);
    assert_eq!(a.data_format, DataFormat::NCHW);
    assert_eq!(a.backend, Backend::CPU);
    assert_eq!(a.memory_mode, MemoryMode::Normal);
}

#[test]
fn builders_keep_other_settings() {
    let c = InferenceConfig::new()
        .with_data_format(DataFormat::NHWC)
        .with_memory(MemoryMode::Low)
        .with_threads(2);
    assert_eq!(c.data_format, DataFormat::NHWC);
    assert_eq!(c.memory_mode, MemoryMode::Low);
    assert_eq!(c.thread_count, 2);
    assert_eq!(c.precision_mode, PrecisionMode::Normal);
    assert_eq!(c.backend, Backend::CPU);
    let d = c.clone().with_threads(6);
    assert_eq!(d.thread_count, 6);
    assert_eq!(d.memory_mode, MemoryMode::Low);
}

#[test]
fn enum_defaults() {
    assert_eq!(PrecisionMode::default(), PrecisionMode::Normal);
    assert_eq!(DataFormat::default(), DataFormat::NCHW);
    assert_eq!(MemoryMode::default(), MemoryMode::Normal);
    assert_eq!(Backend::default(), Backend::CPU);
}

#[test]
fn default_native_config() {
    let n = InferenceConfig::default().to_ffi();
    assert_eq!(
        n,
        NativeConfig {
            thread_count: 4,
            precision_mode: 0,
            backend: 0,
            use_cache: false,
            data_format: 0,
            memory_mode: 0,
        }
    );
}

#[test]
fn native_codes() {
    assert_eq!(PrecisionMode::Normal.code(), 0);
    assert_eq!(PrecisionMode::Low.code(), 1);
    assert_eq!(PrecisionMode::High.code(), 2);
    assert_eq!(DataFormat::NCHW.code(), 0);
    assert_eq!(DataFormat::NHWC.code(), 1);
    assert_eq!(DataFormat::Auto.code(), 2);
    assert_eq!(MemoryMode::Normal.code(), 0);
    assert_eq!(MemoryMode::Low.code(), 1);
    assert_eq!(MemoryMode::High.code(), 2);
    let backends = [
        Backend::CPU,
        Backend::Metal,
        Backend::OpenCL,
        Backend::OpenGL,
        Backend::Vulkan,
        Backend::CUDA,
        Backend::CoreML,
    ];
    for (i, b) in backends.iter().enumerate() {
        assert_eq!(b.code(), i as i32);
    }
}

#[test]
fn full_native_config() {
    let mut c = InferenceConfig::new()
        .with_threads(3)
        .with_precision(PrecisionMode::Low)
        .with_backend(Backend::CoreML)
        .with_data_format(DataFormat::Auto)
        .with_memory(MemoryMode::High);
    c.use_cache = true;
    assert_eq!(
        c.to_ffi(),
        NativeConfig {
            thread_count: 3,
            precision_mode: 1,
            backend: 6,
            use_cache: true,
            data_format: 2,
            memory_mode: 2,
        }
    );
}

#[test]
fn native_or_default_settings() {
    assert_eq!(
        InferenceConfig::native_or_default(None),
        InferenceConfig::default().to_ffi()
    );
    let c = InferenceConfig::new().with_backend(Backend::Vulkan);
    assert_eq!(InferenceConfig::native_or_default(Some(c)).backend, 4);
}

#[test]
fn distinct_configs_encode_distinctly() {
    let a = InferenceConfig::new().with_backend(Backend::OpenCL);
    let b = InferenceConfig::new().with_backend(Backend::OpenGL);
    assert_ne!(a.to_ffi(), b.to_ffi());
    let c = InferenceConfig::new().with_precision(PrecisionMode::Low);
    let d = InferenceConfig::new().with_memory(MemoryMode::Low);
    assert_ne!(c.to_ffi(), d.to_ffi());
}
