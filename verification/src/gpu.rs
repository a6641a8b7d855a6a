//! What the probes of a machine say about its GPU support.

use vstd::prelude::*;
use crate::text::{join, joined, lines_of, split_lines, texts};

verus! {

/// The operating system that the program runs on.
#[derive(Debug, Clone, Copy, PartialEq, Eq, Structural)]
pub enum Platform {
    Windows,
    MacOs,
    Other,
}

/// What the probes of a machine found.
#[derive(Debug)]
pub struct GpuProbe {
    /// The operating system.
    pub platform: Platform,
    /// What the NVIDIA driver's query for GPU names printed, where the
    /// query ran and succeeded.
    pub nvidia_query: Option<String>,
    /// Whether the OpenCL runtime is installed.
    pub opencl_runtime: bool,
}

/// A probe as plain values.
pub struct ProbeModel {
    pub platform: Platform,
    pub nvidia_query: Option<Seq<char>>,
    pub opencl_runtime: bool,
}

impl View for GpuProbe {
    type V = ProbeModel;

    open spec fn view(&self) -> ProbeModel {
        ProbeModel {
            platform: self.platform,
            nvidia_query: match self.nvidia_query {
                Some(out) => Some(out@),
                None => None,
            },
            opencl_runtime: self.opencl_runtime,
        }
    }
}

/// Whether CUDA is supported, and what there is to say of it, given the
/// GPU names that the driver's query listed, one per line.
pub open spec fn cuda_support_of(platform: Platform, names: Option<Seq<Seq<char>>>) -> (
    bool,
    Seq<char>,
) {
    if platform == Platform::Windows {
        match names {
            Some(list) => if list.len() > 0 {
                (true, "NVIDIA GPU: "@ + joined(list, ", "@))
            } else {
                (false, "NVIDIA driver installed but no GPU detected"@)
            },
            None => (false, "NVIDIA GPU or driver not detected"@),
        }
    } else {
        (false, "CUDA support only available on Windows"@)
    }
}

/// The lines of what the driver's query printed.
pub open spec fn query_lines(query: Option<Seq<char>>) -> Option<Seq<Seq<char>>> {
    match query {
        Some(out) => Some(lines_of(out)),
        None => None,
    }
}

/// Whether Metal is supported, and what there is to say of it. No build
/// supports it.
pub open spec fn metal_support_of(platform: Platform) -> (bool, Seq<char>) {
    if platform == Platform::MacOs {
        (false, "Metal support not enabled in this build"@)
    } else {
        (false, "Metal support only available on macOS"@)
    }
}

/// Whether the machine has an OpenCL runtime that counts: it is looked for
/// on Windows only.
pub open spec fn opencl_support_of(probe: ProbeModel) -> bool {
    probe.platform == Platform::Windows && probe.opencl_runtime
}

/// The names of the kinds of GPU support that a probe shows, in the order
/// CUDA, Metal, OpenCL.
pub open spec fn support_names(probe: ProbeModel) -> Seq<Seq<char>> {
    let cuda = cuda_support_of(probe.platform, query_lines(probe.nvidia_query));
    let metal = metal_support_of(probe.platform);
    (if cuda.0 {
        seq!["CUDA"@]
    } else {
        Seq::empty()
    }) + (if metal.0 {
        seq!["Metal"@]
    } else {
        Seq::empty()
    }) + (if opencl_support_of(probe) {
        seq!["OpenCL"@]
    } else {
        Seq::empty()
    })
}

/// What there is to say of each kind of GPU support that a probe shows, in
/// the same order.
pub open spec fn support_details(probe: ProbeModel) -> Seq<Seq<char>> {
    let cuda = cuda_support_of(probe.platform, query_lines(probe.nvidia_query));
    let metal = metal_support_of(probe.platform);
    (if cuda.0 {
        seq![cuda.1]
    } else {
        Seq::empty()
    }) + (if metal.0 {
        seq![metal.1]
    } else {
        Seq::empty()
    }) + (if opencl_support_of(probe) {
        seq!["OpenCL runtime available"@]
    } else {
        Seq::empty()
    })
}

/// Whether a probe shows any GPU support, and the report on it.
pub open spec fn gpu_capabilities_of(probe: ProbeModel) -> (bool, Seq<char>) {
    let names = support_names(probe);
    if names.len() > 0 {
        (
            true,
            "GPU support detected: "@ + joined(names, ", "@) + " | "@ + joined(
                support_details(probe),
                " | "@,
            ),
        )
    } else {
        (false, "No GPU support detected"@)
    }
}

/// Decides on CUDA support from the GPU names that the driver's query
/// listed; `None` stands for a query that did not run or failed.
pub fn cuda_support_from_names(platform: Platform, names: Option<&Vec<String>>) -> (support: (
    bool,
    String,
))
    ensures
        support.0 == cuda_support_of(
            platform,
            match names {
                Some(list) => Some(texts(list@)),
                None => None,
            },
        ).0,
        support.1@ == cuda_support_of(
            platform,
            match names {
                Some(list) => Some(texts(list@)),
                None => None,
            },
        ).1,
{
    match platform {
        Platform::Windows => match names {
            Some(list) => {
                if list.len() > 0 {
                    let mut info = "NVIDIA GPU: ".to_string();
                    let listed = join(list, ", ");
                    info.append(listed.as_str());
                    (true, info)
                } else {
                    (false, "NVIDIA driver installed but no GPU detected".to_string())
                }
            },
            None => (false, "NVIDIA GPU or driver not detected".to_string()),
        },
        _ => (false, "CUDA support only available on Windows".to_string()),
    }
}

/// Decides on CUDA support from what the driver's query printed: one GPU
/// name per line. `None` stands for a query that did not run or failed.
pub fn detect_cuda_support(platform: Platform, nvidia_query: Option<&str>) -> (support: (
    bool,
    String,
))
    ensures
        support.0 == cuda_support_of(
            platform,
            query_lines(
                match nvidia_query {
                    Some(out) => Some(out@),
                    None => None,
                },
            ),
        ).0,
        support.1@ == cuda_support_of(
            platform,
            query_lines(
                match nvidia_query {
                    Some(out) => Some(out@),
                    None => None,
                },
            ),
        ).1,
{
    match nvidia_query {
        Some(out) => {
            let names = split_lines(out);
            cuda_support_from_names(platform, Some(&names))
        },
        None => cuda_support_from_names(platform, None),
    }
}

/// Decides on Metal support: there is none on any platform, and the
/// report says why.
pub fn detect_metal_support(platform: Platform) -> (support: (bool, String))
    ensures
        support.0 == metal_support_of(platform).0,
        support.1@ == metal_support_of(platform).1,
        !support.0,
{
    match platform {
        Platform::MacOs => (false, "Metal support not enabled in this build".to_string()),
        _ => (false, "Metal support only available on macOS".to_string()),
    }
}

/// Sums up what a probe shows: whether the machine has any GPU support,
/// and a report that names each kind found and says what was found of it.
pub fn detect_gpu_capabilities(probe: &GpuProbe) -> (capabilities: (bool, String))
    ensures
        capabilities.0 == gpu_capabilities_of(probe@).0,
        capabilities.1@ == gpu_capabilities_of(probe@).1,
{
    let mut gpu_info: Vec<String> = Vec::new();
    let mut detailed_info: Vec<String> = Vec::new();

    let (has_cuda, cuda_info) = match &probe.nvidia_query {
        Some(out) => detect_cuda_support(probe.platform, Some(out.as_str())),
        None => detect_cuda_support(probe.platform, None),
    };
    if has_cuda {
        gpu_info.push("CUDA".to_string());
        detailed_info.push(cuda_info);
    }
    let (has_metal, metal_info) = detect_metal_support(probe.platform);
    if has_metal {
        gpu_info.push("Metal".to_string());
        detailed_info.push(metal_info);
    }
    if probe.platform == Platform::Windows && probe.opencl_runtime {
        gpu_info.push("OpenCL".to_string());
        detailed_info.push("OpenCL runtime available".to_string());
    }
    assert(texts(gpu_info@) =~= support_names(probe@));
    assert(texts(detailed_info@) =~= support_details(probe@));

    if gpu_info.len() > 0 {
        let mut info = "GPU support detected: ".to_string();
        let names = join(&gpu_info, ", ");
        info.append(names.as_str());
        info.append(" | ");
        let details = join(&detailed_info, " | ");
        info.append(details.as_str());
        (true, info)
    } else {
        (false, "No GPU support detected".to_string())
    }
}

/// A machine shows GPU support exactly when its driver's query lists a
/// GPU on Windows or its OpenCL runtime counts.
pub proof fn lemma_gpu_support_is_cuda_or_opencl(probe: ProbeModel)
    ensures
        gpu_capabilities_of(probe).0 <==> (cuda_support_of(
            probe.platform,
            query_lines(probe.nvidia_query),
        ).0 || opencl_support_of(probe)),
{
}

/// Off Windows no probe shows GPU support.
pub proof fn lemma_no_gpu_support_off_windows(probe: ProbeModel)
    requires
        probe.platform != Platform::Windows,
    ensures
        gpu_capabilities_of(probe) == (false, "No GPU support detected"@),
{
    assert(support_names(probe) =~= Seq::<Seq<char>>::empty());
}

} // verus!
