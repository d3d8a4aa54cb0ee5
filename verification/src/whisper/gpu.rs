//! GPU detection and device enumeration.
//!
//! Detection of the GPU capabilities that Whisper can use. CUDA is the one
//! backend, and whether it is there is fixed when the library is built.

use vstd::prelude::*;
use vstd::string::StringExecFns;

verus! {

/// Whether the library is built with CUDA support.
pub const CUDA_ENABLED: bool = false;

/// Detected GPU backend type.
#[derive(Debug, Clone, Copy, PartialEq, Eq, Structural)]
pub enum GpuBackend {
    /// NVIDIA GPU with CUDA support.
    Cuda,
    /// No GPU available, will use CPU.
    Cpu,
}

/// Information about a detected GPU device.
#[derive(Debug, Clone)]
pub struct GpuDeviceInfo {
    /// Backend type.
    pub backend: GpuBackend,
    /// Device name (if available).
    pub device_name: Option<String>,
    /// Device index.
    pub device_index: i32,
    /// Available VRAM in MB (if detectable).
    pub vram_mb: Option<u64>,
}

/// GPU detection result.
#[derive(Debug, Clone)]
pub struct GpuDetection {
    /// Detected backend.
    pub backend: GpuBackend,
    /// Available GPU devices.
    pub devices: Vec<GpuDeviceInfo>,
    /// Recommended device for Whisper.
    pub recommended_device: Option<i32>,
    /// Detection message for user feedback.
    pub message: String,
}

/// What is said where no GPU is found.
pub open spec fn no_gpu_message() -> Seq<char> {
    "No GPU detected. Whisper will run on CPU. For GPU acceleration, rebuild with: cargo build --features cuda"@
}

/// What is said where a CUDA device is found.
pub open spec fn cuda_message() -> Seq<char> {
    "CUDA GPU detected and available for Whisper acceleration"@
}

impl GpuDetection {
    /// Check if GPU is available.
    pub fn has_gpu(&self) -> (r: bool)
        ensures
            r == (self.backend != GpuBackend::Cpu),
    {
        self.backend != GpuBackend::Cpu
    }

    /// Get the recommended device index, or 0 if no GPU.
    pub fn device_index(&self) -> (r: i32)
        ensures
            r == match self.recommended_device {
                Some(index) => index,
                None => 0,
            },
    {
        match self.recommended_device {
            Some(index) => index,
            None => 0,
        }
    }

    /// Create a CPU-only detection result.
    pub fn cpu_only(message: String) -> (r: Self)
        ensures
            r.backend == GpuBackend::Cpu,
            r.devices@.len() == 0,
            r.recommended_device is None,
            r.message == message,
    {
        GpuDetection {
            backend: GpuBackend::Cpu,
            devices: Vec::new(),
            recommended_device: None,
            message,
        }
    }

    /// Whether this is what detection gives where a CUDA device is found:
    /// one device, of index zero, which is the recommended one.
    pub open spec fn is_cuda_detection(&self) -> bool {
        &&& self.backend == GpuBackend::Cuda
        &&& self.devices@.len() == 1
        &&& self.devices@[0].backend == GpuBackend::Cuda
        &&& self.devices@[0].device_name is Some
        &&& self.devices@[0].device_name->0@ == "CUDA Device (detected by whisper-rs)"@
        &&& self.devices@[0].device_index == 0
        &&& self.devices@[0].vram_mb is None
        &&& self.recommended_device == Some(0i32)
        &&& self.message@ == cuda_message()
    }

    /// Whether this is what detection gives where no GPU is found.
    pub open spec fn is_cpu_detection(&self) -> bool {
        &&& self.backend == GpuBackend::Cpu
        &&& self.devices@.len() == 0
        &&& self.recommended_device is None
        &&& self.message@ == no_gpu_message()
    }
}

/// Attempt to detect CUDA availability: a CUDA device where CUDA support
/// is built in, an error where it is not.
pub fn try_detect_cuda(cuda_enabled: bool) -> (r: Result<GpuDetection, String>)
    ensures
        cuda_enabled <==> r is Ok,
        r is Ok ==> r->Ok_0.is_cuda_detection(),
        r is Err ==> r->Err_0@ == "CUDA feature not enabled"@,
{
    if cuda_enabled {
        let mut devices: Vec<GpuDeviceInfo> = Vec::new();
        devices.push(
            GpuDeviceInfo {
                backend: GpuBackend::Cuda,
                device_name: Some(String::from_str("CUDA Device (detected by whisper-rs)")),
                device_index: 0,
                vram_mb: None,
            },
        );
        Ok(
            GpuDetection {
                backend: GpuBackend::Cuda,
                devices,
                recommended_device: Some(0),
                message: String::from_str(
                    "CUDA GPU detected and available for Whisper acceleration",
                ),
            },
        )
    } else {
        Err(String::from_str("CUDA feature not enabled"))
    }
}

/// Detect available GPU capabilities.
///
/// Always succeeds: where no CUDA device is found the result says that
/// Whisper runs on the CPU.
pub fn detect_gpu() -> (r: Result<GpuDetection, String>)
    ensures
        r is Ok,
        CUDA_ENABLED ==> r->Ok_0.is_cuda_detection(),
        !CUDA_ENABLED ==> r->Ok_0.is_cpu_detection(),
{
    match try_detect_cuda(CUDA_ENABLED) {
        Ok(detection) => Ok(detection),
        Err(_) => Ok(
            GpuDetection::cpu_only(
                String::from_str(
                    "No GPU detected. Whisper will run on CPU. For GPU acceleration, rebuild with: cargo build --features cuda",
                ),
            ),
        ),
    }
}

/// Get the GPU detection result, or nothing where detection fails.
pub fn get_gpu_info() -> (r: Option<GpuDetection>)
    ensures
        r is Some,
        CUDA_ENABLED ==> r->0.is_cuda_detection(),
        !CUDA_ENABLED ==> r->0.is_cpu_detection(),
{
    match detect_gpu() {
        Ok(detection) => Some(detection),
        Err(_) => None,
    }
}

/// Check if GPU acceleration is available.
pub fn is_gpu_available() -> (r: bool)
    ensures
        r == CUDA_ENABLED,
{
    match get_gpu_info() {
        Some(detection) => detection.has_gpu(),
        None => false,
    }
}

/// Get a user-friendly message about GPU availability.
pub fn get_gpu_message() -> (r: String)
    ensures
        r@ == if CUDA_ENABLED {
            cuda_message()
        } else {
            no_gpu_message()
        },
{
    match get_gpu_info() {
        Some(detection) => detection.message,
        None => String::from_str(
            "GPU detection not performed. Whisper will attempt auto-detection.",
        ),
    }
}

} // verus!
