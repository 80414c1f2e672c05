//! Classification of the host's processor into the chip families, GPU
//! backends and capability tiers of the protocol.

use vstd::prelude::*;
use crate::text::{
    chars_of, concat2, concat3, find_from, first_index_of, has_infix, has_infix_exec, has_prefix,
    has_prefix_exec, lines, occurs_at, lowercase, str_eq, strip_cr, to_lowercase, trim, trim_chars, trim_str,
    vec_range,
};

verus! {

/// One gibibyte in bytes.
pub const GIB: u64 = 1073741824;

/// What the protocol reports of a processor: chip family, chip name,
/// GPU core count and memory bandwidth in whole GB/s.
#[derive(Debug)]
pub struct ChipInfo {
    pub chip_family: String,
    pub chip_name: String,
    pub gpu_cores: u32,
    pub bandwidth_gbs: u32,
}

/// The plain values of a `ChipInfo`.
pub type ChipView = (Seq<char>, Seq<char>, u32, u32);

impl View for ChipInfo {
    type V = ChipView;

    open spec fn view(&self) -> ChipView {
        (self.chip_family@, self.chip_name@, self.gpu_cores, self.bandwidth_gbs)
    }
}

/// The view of an optional `ChipInfo`.
pub open spec fn chip_opt_view(c: Option<ChipInfo>) -> Option<ChipView> {
    match c {
        Some(i) => Some(i@),
        None => None,
    }
}

fn chip(family: &str, name: &str, gpu_cores: u32, bandwidth_gbs: u32) -> (r: ChipInfo)
    ensures
        r@ == (family@, name@, gpu_cores, bandwidth_gbs),
{
    ChipInfo { chip_family: family.to_owned(), chip_name: name.to_owned(), gpu_cores, bandwidth_gbs }
}

/// The Apple chip families, most specific first, with the text that names them.
pub open spec fn apple_patterns() -> Seq<(Seq<char>, Seq<char>)> {
    seq![
        ("m4 ultra"@, "m4Ultra"@), ("m4 max"@, "m4Max"@), ("m4 pro"@, "m4Pro"@), ("m4"@, "m4"@),
        ("m3 ultra"@, "m3Ultra"@), ("m3 max"@, "m3Max"@), ("m3 pro"@, "m3Pro"@), ("m3"@, "m3"@),
        ("m2 ultra"@, "m2Ultra"@), ("m2 max"@, "m2Max"@), ("m2 pro"@, "m2Pro"@), ("m2"@, "m2"@),
        ("m1 ultra"@, "m1Ultra"@), ("m1 max"@, "m1Max"@), ("m1 pro"@, "m1Pro"@), ("m1"@, "m1"@),
    ]
}

/// The family of the first pattern that occurs in `lower`, or "unknown".
pub open spec fn first_matching_family(lower: Seq<char>, pats: Seq<(Seq<char>, Seq<char>)>) -> Seq<char>
    decreases pats.len(),
{
    if pats.len() == 0 {
        "unknown"@
    } else if has_infix(lower, pats[0].0) {
        pats[0].1
    } else {
        first_matching_family(lower, pats.drop_first())
    }
}

/// The Apple chip family named in a lower-cased processor name.
pub open spec fn apple_chip_family(lower: Seq<char>) -> Seq<char> {
    first_matching_family(lower, apple_patterns())
}

/// An occurrence of a text starting with `q` is an occurrence of `q`.
proof fn lemma_infix_of_prefix(s: Seq<char>, p: Seq<char>, q: Seq<char>)
    requires
        q.len() <= p.len(),
        p.subrange(0, q.len() as int) == q,
    ensures
        has_infix(s, p) ==> has_infix(s, q),
{
    if has_infix(s, p) {
        let i = choose|i: int| occurs_at(s, p, i);
        assert(s.subrange(i, i + q.len()) =~= p.subrange(0, q.len() as int));
        assert(occurs_at(s, q, i));
    }
}

/// The Apple family of a lower-cased processor name, most specific first:
/// a name that mentions generation n with a variant (ultra, max or pro),
/// and neither a newer generation nor a more specific variant of its own,
/// is that generation's variant ("m3 max" gives "m3Max"); one that mentions
/// a generation alone gives the plain generation; one that mentions none
/// is "unknown".
pub proof fn lemma_apple_family_names(lower: Seq<char>)
    ensures
        has_infix(lower, "m4 ultra"@) ==> apple_chip_family(lower) == "m4Ultra"@,
        has_infix(lower, "m4 max"@) && !has_infix(lower, "m4 ultra"@) ==> apple_chip_family(lower) == "m4Max"@,
        has_infix(lower, "m4 pro"@) && !has_infix(lower, "m4 ultra"@) && !has_infix(lower, "m4 max"@) ==> apple_chip_family(lower) == "m4Pro"@,
        has_infix(lower, "m4"@) && !has_infix(lower, "m4 ultra"@) && !has_infix(lower, "m4 max"@) && !has_infix(lower, "m4 pro"@) ==> apple_chip_family(lower) == "m4"@,
        has_infix(lower, "m3 ultra"@) && !has_infix(lower, "m4"@) ==> apple_chip_family(lower) == "m3Ultra"@,
        has_infix(lower, "m3 max"@) && !has_infix(lower, "m3 ultra"@) && !has_infix(lower, "m4"@) ==> apple_chip_family(lower) == "m3Max"@,
        has_infix(lower, "m3 pro"@) && !has_infix(lower, "m3 ultra"@) && !has_infix(lower, "m3 max"@) && !has_infix(lower, "m4"@) ==> apple_chip_family(lower) == "m3Pro"@,
        has_infix(lower, "m3"@) && !has_infix(lower, "m3 ultra"@) && !has_infix(lower, "m3 max"@) && !has_infix(lower, "m3 pro"@) && !has_infix(lower, "m4"@) ==> apple_chip_family(lower) == "m3"@,
        has_infix(lower, "m2 ultra"@) && !has_infix(lower, "m4"@) && !has_infix(lower, "m3"@) ==> apple_chip_family(lower) == "m2Ultra"@,
        has_infix(lower, "m2 max"@) && !has_infix(lower, "m2 ultra"@) && !has_infix(lower, "m4"@) && !has_infix(lower, "m3"@) ==> apple_chip_family(lower) == "m2Max"@,
        has_infix(lower, "m2 pro"@) && !has_infix(lower, "m2 ultra"@) && !has_infix(lower, "m2 max"@) && !has_infix(lower, "m4"@) && !has_infix(lower, "m3"@) ==> apple_chip_family(lower) == "m2Pro"@,
        has_infix(lower, "m2"@) && !has_infix(lower, "m2 ultra"@) && !has_infix(lower, "m2 max"@) && !has_infix(lower, "m2 pro"@) && !has_infix(lower, "m4"@) && !has_infix(lower, "m3"@) ==> apple_chip_family(lower) == "m2"@,
        has_infix(lower, "m1 ultra"@) && !has_infix(lower, "m4"@) && !has_infix(lower, "m3"@) && !has_infix(lower, "m2"@) ==> apple_chip_family(lower) == "m1Ultra"@,
        has_infix(lower, "m1 max"@) && !has_infix(lower, "m1 ultra"@) && !has_infix(lower, "m4"@) && !has_infix(lower, "m3"@) && !has_infix(lower, "m2"@) ==> apple_chip_family(lower) == "m1Max"@,
        has_infix(lower, "m1 pro"@) && !has_infix(lower, "m1 ultra"@) && !has_infix(lower, "m1 max"@) && !has_infix(lower, "m4"@) && !has_infix(lower, "m3"@) && !has_infix(lower, "m2"@) ==> apple_chip_family(lower) == "m1Pro"@,
        has_infix(lower, "m1"@) && !has_infix(lower, "m1 ultra"@) && !has_infix(lower, "m1 max"@) && !has_infix(lower, "m1 pro"@) && !has_infix(lower, "m4"@) && !has_infix(lower, "m3"@) && !has_infix(lower, "m2"@) ==> apple_chip_family(lower) == "m1"@,
        !has_infix(lower, "m4"@) && !has_infix(lower, "m3"@) && !has_infix(lower, "m2"@) && !has_infix(lower, "m1"@) ==> apple_chip_family(lower) == "unknown"@,
{
    reveal_strlit("m4");
    reveal_strlit("m4 ultra");
    reveal_strlit("m4 max");
    reveal_strlit("m4 pro");
    reveal_strlit("m3");
    reveal_strlit("m3 ultra");
    reveal_strlit("m3 max");
    reveal_strlit("m3 pro");
    reveal_strlit("m2");
    reveal_strlit("m2 ultra");
    reveal_strlit("m2 max");
    reveal_strlit("m2 pro");
    reveal_strlit("m1");
    reveal_strlit("m1 ultra");
    reveal_strlit("m1 max");
    reveal_strlit("m1 pro");
    assert("m4 ultra"@.subrange(0, 2) =~= "m4"@);
    lemma_infix_of_prefix(lower, "m4 ultra"@, "m4"@);
    assert("m4 max"@.subrange(0, 2) =~= "m4"@);
    lemma_infix_of_prefix(lower, "m4 max"@, "m4"@);
    assert("m4 pro"@.subrange(0, 2) =~= "m4"@);
    lemma_infix_of_prefix(lower, "m4 pro"@, "m4"@);
    assert("m3 ultra"@.subrange(0, 2) =~= "m3"@);
    lemma_infix_of_prefix(lower, "m3 ultra"@, "m3"@);
    assert("m3 max"@.subrange(0, 2) =~= "m3"@);
    lemma_infix_of_prefix(lower, "m3 max"@, "m3"@);
    assert("m3 pro"@.subrange(0, 2) =~= "m3"@);
    lemma_infix_of_prefix(lower, "m3 pro"@, "m3"@);
    assert("m2 ultra"@.subrange(0, 2) =~= "m2"@);
    lemma_infix_of_prefix(lower, "m2 ultra"@, "m2"@);
    assert("m2 max"@.subrange(0, 2) =~= "m2"@);
    lemma_infix_of_prefix(lower, "m2 max"@, "m2"@);
    assert("m2 pro"@.subrange(0, 2) =~= "m2"@);
    lemma_infix_of_prefix(lower, "m2 pro"@, "m2"@);
    assert("m1 ultra"@.subrange(0, 2) =~= "m1"@);
    lemma_infix_of_prefix(lower, "m1 ultra"@, "m1"@);
    assert("m1 max"@.subrange(0, 2) =~= "m1"@);
    lemma_infix_of_prefix(lower, "m1 max"@, "m1"@);
    assert("m1 pro"@.subrange(0, 2) =~= "m1"@);
    lemma_infix_of_prefix(lower, "m1 pro"@, "m1"@);
    reveal_with_fuel(first_matching_family, 17);
}

/// Whether the characters hold the given text.
fn holds(v: &Vec<char>, p: &str) -> (r: bool)
    ensures
        r == has_infix(v@, p@),
{
    let pv = chars_of(p);
    has_infix_exec(v, &pv)
}

/// Whether the characters begin with the given text.
fn begins(v: &Vec<char>, p: &str) -> (r: bool)
    ensures
        r == has_prefix(v@, p@),
{
    let pv = chars_of(p);
    has_prefix_exec(v, &pv)
}

/// The Apple chip family named in a lower-cased processor name, most
/// specific match first; "unknown" where none matches.
pub fn parse_apple_chip(lower: &str) -> (r: String)
    ensures
        r@ == apple_chip_family(lower@),
{
    let v = chars_of(lower);
    let pats: Vec<(&str, &str)> = vec![
        ("m4 ultra", "m4Ultra"), ("m4 max", "m4Max"), ("m4 pro", "m4Pro"), ("m4", "m4"),
        ("m3 ultra", "m3Ultra"), ("m3 max", "m3Max"), ("m3 pro", "m3Pro"), ("m3", "m3"),
        ("m2 ultra", "m2Ultra"), ("m2 max", "m2Max"), ("m2 pro", "m2Pro"), ("m2", "m2"),
        ("m1 ultra", "m1Ultra"), ("m1 max", "m1Max"), ("m1 pro", "m1Pro"), ("m1", "m1"),
    ];
    let ghost spats = apple_patterns();
    assert(pats@.len() == spats.len());
    assert forall|k: int| 0 <= k < spats.len() implies (#[trigger] pats@[k]).0@ == spats[k].0 && pats@[k].1@
        == spats[k].1 by {}
    let mut i: usize = 0;
    assert(spats.skip(0) =~= spats);
    while i < pats.len()
        invariant
            v@ == lower@,
            pats@.len() == spats.len(),
            spats == apple_patterns(),
            forall|k: int| 0 <= k < spats.len() ==> (#[trigger] pats@[k]).0@ == spats[k].0 && pats@[k].1@
                == spats[k].1,
            i <= pats.len(),
            apple_chip_family(lower@) == first_matching_family(lower@, spats.skip(i as int)),
        decreases pats.len() - i,
    {
        let (pat, family) = pats[i];
        if holds(&v, pat) {
            return family.to_owned();
        }
        assert(spats.skip(i as int).drop_first() =~= spats.skip(i + 1));
        i = i + 1;
    }
    "unknown".to_owned()
}

/// `c` is an ASCII decimal digit.
pub open spec fn is_ascii_digit(c: char) -> bool {
    '0' <= c <= '9'
}

/// The GPU backend inferred from a chip family. `android` says whether the
/// program runs on Android, which decides the generic ARM case.
pub open spec fn gpu_backend_for(f: Seq<char>, android: bool) -> Seq<char> {
    if f.len() >= 1 && f[0] == 'm' && f.len() >= 2 && is_ascii_digit(f[1]) {
        "metal"@
    } else if mobile_soc(f) {
        "vulkan"@
    } else if f == "armGeneric"@ {
        if android {
            "vulkan"@
        } else {
            "cpu"@
        }
    } else if f == "nvidiaGPU"@ {
        "cuda"@
    } else if f == "amdGPU"@ {
        "rocm"@
    } else {
        "cpu"@
    }
}

/// The GPU backend values of the protocol.
pub open spec fn documented_gpu_backend(b: Seq<char>) -> bool {
    b == "metal"@ || b == "cuda"@ || b == "rocm"@ || b == "vulkan"@ || b == "sycl"@ || b == "cpu"@
}

/// The GPU backend for a chip family: Metal for Apple M-series; Vulkan for
/// the mobile systems on chip (Google Tensor, Snapdragon, and the Mali-GPU
/// Kirin, Exynos and MediaTek, since the protocol has no OpenCL backend);
/// Vulkan or CPU for generic ARM (by `android`); CUDA; ROCm; else CPU.
pub fn infer_gpu_backend(chip_family: &str, android: bool) -> (r: &'static str)
    ensures
        r@ == gpu_backend_for(chip_family@, android),
        documented_gpu_backend(r@),
{
    let f = chars_of(chip_family);
    if f.len() >= 2 && f[0] == 'm' && '0' <= f[1] && f[1] <= '9' {
        "metal"
    } else if is_mobile_soc(chip_family) {
        "vulkan"
    } else if str_eq(chip_family, "armGeneric") {
        if android {
            "vulkan"
        } else {
            "cpu"
        }
    } else if str_eq(chip_family, "nvidiaGPU") {
        "cuda"
    } else if str_eq(chip_family, "amdGPU") {
        "rocm"
    } else {
        "cpu"
    }
}

/// A mobile system-on-chip family.
pub open spec fn mobile_soc(f: Seq<char>) -> bool {
    has_prefix(f, "tensor"@) || f == "snapdragon"@ || f == "kirin"@ || f == "exynos"@ || f == "mediatek"@
}

/// Whether the chip family is a mobile system on chip.
pub fn is_mobile_soc(chip_family: &str) -> (r: bool)
    ensures
        r == mobile_soc(chip_family@),
{
    let f = chars_of(chip_family);
    begins(&f, "tensor") || str_eq(chip_family, "snapdragon") || str_eq(chip_family, "kirin") || str_eq(
        chip_family,
        "exynos",
    ) || str_eq(chip_family, "mediatek")
}

/// The capability tier (1 backbone, 2 desktop, 3 tablet, 4 phone) of a chip
/// family with `ram` bytes of memory.
pub open spec fn tier_for(f: Seq<char>, ram: int) -> u32 {
    if has_infix(f, "Ultra"@) {
        1
    } else if has_infix(f, "Max"@) {
        1
    } else if ram >= 64 * GIB {
        1
    } else if mobile_soc(f) && ram >= 12 * GIB {
        2
    } else if ram >= 16 * GIB {
        2
    } else if mobile_soc(f) {
        3
    } else if ram >= 6 * GIB {
        3
    } else {
        4
    }
}

/// Tiers by family and memory: a Google Tensor, Snapdragon, Kirin, Exynos
/// or MediaTek chip (not an Ultra or Max) is tier 3 below 12 GiB of RAM,
/// whatever the RAM, and tier 2 from 12 GiB up to 64 GiB; other families
/// are tier 4 below 6 GiB, tier 3 below 16 GiB and tier 2 below 64 GiB, and
/// tier 4 is only for them; an Ultra or Max chip, or 64 GiB and more, is
/// tier 1.
pub proof fn lemma_tier_by_family(f: Seq<char>, ram: int)
    ensures
        (has_prefix(f, "tensor"@) || f == "snapdragon"@ || f == "kirin"@ || f == "exynos"@ || f == "mediatek"@) && !has_infix(f, "Ultra"@) && !has_infix(f, "Max"@) && ram < 12 * GIB ==> tier_for(f, ram) == 3,
        (has_prefix(f, "tensor"@) || f == "snapdragon"@ || f == "kirin"@ || f == "exynos"@ || f == "mediatek"@) && !has_infix(f, "Ultra"@) && !has_infix(f, "Max"@) && 12 * GIB <= ram < 64 * GIB ==> tier_for(f, ram) == 2,
        tier_for(f, ram) == 4 ==> !(has_prefix(f, "tensor"@) || f == "snapdragon"@ || f == "kirin"@ || f == "exynos"@ || f == "mediatek"@) && ram < 6 * GIB,
        !(has_prefix(f, "tensor"@) || f == "snapdragon"@ || f == "kirin"@ || f == "exynos"@ || f == "mediatek"@) && !has_infix(f, "Ultra"@) && !has_infix(f, "Max"@) && ram < 6 * GIB ==> tier_for(f, ram) == 4,
        !(has_prefix(f, "tensor"@) || f == "snapdragon"@ || f == "kirin"@ || f == "exynos"@ || f == "mediatek"@) && !has_infix(f, "Ultra"@) && !has_infix(f, "Max"@) && 6 * GIB <= ram < 16 * GIB ==> tier_for(f, ram) == 3,
        !(has_prefix(f, "tensor"@) || f == "snapdragon"@ || f == "kirin"@ || f == "exynos"@ || f == "mediatek"@) && !has_infix(f, "Ultra"@) && !has_infix(f, "Max"@) && 16 * GIB <= ram < 64 * GIB ==> tier_for(f, ram) == 2,
        has_infix(f, "Ultra"@) || has_infix(f, "Max"@) || ram >= 64 * GIB ==> tier_for(f, ram) == 1,
        1 <= tier_for(f, ram) <= 4,
{
}

/// GPU backends by family: ROCm exactly for "amdGPU", CUDA exactly for
/// "nvidiaGPU", Metal exactly for the Apple M-series ("m" and a digit); the
/// CPU families "amdCPU", "intelCPU" and "unknown" get "cpu"; the mobile
/// systems on chip get Vulkan; generic ARM gets Vulkan on Android, else
/// "cpu"; every other family gets "cpu".
pub proof fn lemma_gpu_backend_families(f: Seq<char>, android: bool)
    ensures
        gpu_backend_for(f, android) == "rocm"@ <==> f == "amdGPU"@,
        gpu_backend_for(f, android) == "cuda"@ <==> f == "nvidiaGPU"@,
        gpu_backend_for(f, android) == "metal"@ <==> (f.len() >= 2 && f[0] == 'm' && '0' <= f[1] <= '9'),
        f == "amdCPU"@ || f == "intelCPU"@ || f == "unknown"@ ==> gpu_backend_for(f, android) == "cpu"@,
        (has_prefix(f, "tensor"@) || f == "snapdragon"@ || f == "kirin"@ || f == "exynos"@ || f == "mediatek"@) ==> gpu_backend_for(f, android) == "vulkan"@,
        f == "armGeneric"@ ==> gpu_backend_for(f, android) == (if android { "vulkan"@ } else { "cpu"@ }),
        !(f.len() >= 2 && f[0] == 'm' && '0' <= f[1] <= '9') && !(has_prefix(f, "tensor"@) || f == "snapdragon"@ || f == "kirin"@ || f == "exynos"@ || f == "mediatek"@) && f != "armGeneric"@ && f != "nvidiaGPU"@
            && f != "amdGPU"@ ==> gpu_backend_for(f, android) == "cpu"@,
{
    reveal_strlit("rocm");
    reveal_strlit("cuda");
    reveal_strlit("metal");
    reveal_strlit("vulkan");
    reveal_strlit("cpu");
    reveal_strlit("amdGPU");
    reveal_strlit("nvidiaGPU");
    reveal_strlit("amdCPU");
    reveal_strlit("intelCPU");
    reveal_strlit("unknown");
    reveal_strlit("armGeneric");
    reveal_strlit("tensor");
    reveal_strlit("snapdragon");
    reveal_strlit("kirin");
    reveal_strlit("exynos");
    reveal_strlit("mediatek");
    assert("rocm"@[0] != "cuda"@[0]);
    assert("rocm"@.len() != "metal"@.len() && "rocm"@.len() != "vulkan"@.len() && "rocm"@.len() != "cpu"@.len());
    assert("cuda"@.len() != "metal"@.len() && "cuda"@.len() != "vulkan"@.len() && "cuda"@.len() != "cpu"@.len());
    assert("metal"@.len() != "vulkan"@.len() && "metal"@.len() != "cpu"@.len());
    if f == "amdCPU"@ || f == "intelCPU"@ || f == "unknown"@ || f == "amdGPU"@ || f == "nvidiaGPU"@ {
        assert(!has_prefix(f, "tensor"@)) by {
            if has_prefix(f, "tensor"@) {
                assert(f[0] == "tensor"@[0]);
            }
        }
        assert("amdCPU"@[0] != "exynos"@[0]);
        assert("amdCPU"@[3] != "amdGPU"@[3]);
        assert("intelCPU"@[0] != "mediatek"@[0]);
    }
    if has_prefix(f, "tensor"@) {
        assert(f[0] == "tensor"@[0]);
    }
}

/// The capability tier of a chip family with `total_memory` bytes of RAM;
/// the thresholds are in whole gibibytes.
pub fn determine_tier(chip_family: &str, total_memory: u64) -> (r: u32)
    ensures
        r == tier_for(chip_family@, total_memory as int),
        1 <= r <= 4,
{
    let f = chars_of(chip_family);
    let mobile = is_mobile_soc(chip_family);
    if holds(&f, "Ultra") {
        1
    } else if holds(&f, "Max") {
        1
    } else if total_memory >= 64 * GIB {
        1
    } else if mobile && total_memory >= 12 * GIB {
        2
    } else if total_memory >= 16 * GIB {
        2
    } else if mobile {
        3
    } else if total_memory >= 6 * GIB {
        3
    } else {
        4
    }
}

/// What the processor name says about the chip: the chip itself, or that it
/// is an ARM processor whose system on chip is to be identified.
#[derive(Debug)]
pub enum CpuClass {
    Chip(ChipInfo),
    Arm,
}

/// The chip that a processor name identifies, by its lower-cased form.
pub open spec fn cpu_class_spec(name: Seq<char>) -> Option<ChipView> {
    let lower = lowercase(name);
    if has_infix(lower, "apple m"@) {
        Some((apple_chip_family(lower), name, 10, 200))
    } else if has_infix(lower, "intel"@) {
        Some(("intelCPU"@, name, 0, 50))
    } else if has_infix(lower, "amd"@) {
        Some(("amdCPU"@, name, 0, 50))
    } else if has_infix(lower, "arm"@) || has_infix(lower, "aarch64"@) || has_infix(lower, "cortex"@)
        || has_infix(lower, "snapdragon"@) {
        None
    } else {
        Some(("unknown"@, name, 0, 25))
    }
}

/// Classifies a processor name: Apple silicon, Intel, AMD, an ARM processor
/// (identified further by its system on chip), or unknown.
pub fn classify_cpu(cpu_name: &str) -> (r: CpuClass)
    ensures
        match r {
            CpuClass::Chip(c) => cpu_class_spec(cpu_name@) == Some(c@),
            CpuClass::Arm => cpu_class_spec(cpu_name@) is None,
        },
{
    let lower = to_lowercase(cpu_name);
    let v = chars_of(lower.as_str());
    if holds(&v, "apple m") {
        let family = parse_apple_chip(lower.as_str());
        return CpuClass::Chip(
            ChipInfo { chip_family: family, chip_name: cpu_name.to_owned(), gpu_cores: 10, bandwidth_gbs: 200 },
        );
    }
    if holds(&v, "intel") {
        return CpuClass::Chip(chip("intelCPU", cpu_name, 0, 50));
    }
    if holds(&v, "amd") {
        return CpuClass::Chip(chip("amdCPU", cpu_name, 0, 50));
    }
    if holds(&v, "arm") || holds(&v, "aarch64") || holds(&v, "cortex") || holds(&v, "snapdragon") {
        return CpuClass::Arm;
    }
    CpuClass::Chip(chip("unknown", cpu_name, 0, 25))
}

/// The chip of an ARM processor: the identified system on chip, or the
/// generic ARM family.
pub fn arm_chip_info(cpu_name: &str, soc: Option<ChipInfo>) -> (r: ChipInfo)
    ensures
        match soc {
            Some(s) => r@ == s@,
            None => r@ == ("armGeneric"@, cpu_name@, 0u32, 25u32),
        },
{
    match soc {
        Some(s) => s,
        None => chip("armGeneric", cpu_name, 0, 25),
    }
}

/// The first line that begins with `p`.
pub open spec fn first_with_prefix(ls: Seq<Seq<char>>, p: Seq<char>) -> Option<Seq<char>>
    decreases ls.len(),
{
    if ls.len() == 0 {
        None
    } else if has_prefix(ls[0], p) {
        Some(ls[0])
    } else {
        first_with_prefix(ls.drop_first(), p)
    }
}

/// The second `:`-separated field of a line, where the line has a `:`.
pub open spec fn second_colon_field(l: Seq<char>) -> Option<Seq<char>> {
    let i = first_index_of(l, ':');
    if i >= l.len() {
        None
    } else {
        let rest = l.subrange(i + 1, l.len() as int);
        Some(rest.subrange(0, first_index_of(rest, ':')))
    }
}

/// The lower-cased, trimmed value of the first `Hardware` line of a
/// `/proc/cpuinfo` text.
pub open spec fn hardware_field_of(text: Seq<char>) -> Option<Seq<char>> {
    match first_with_prefix(lines(text), "Hardware"@) {
        Some(l) => match second_colon_field(l) {
            Some(f) => Some(lowercase(trim(f))),
            None => None,
        },
        None => None,
    }
}

/// The value of a line's second `:`-separated field, trimmed and lower-cased.
fn colon_field_value(l: &Vec<char>) -> (r: Option<String>)
    ensures
        match second_colon_field(l@) {
            Some(f) => r matches Some(s) && s@ == lowercase(trim(f)),
            None => r is None,
        },
{
    let i = find_from(l, ':', 0);
    assert(l@.subrange(0, l.len() as int) =~= l@);
    if i >= l.len() {
        return None;
    }
    let j = find_from(l, ':', i + 1);
    let field = vec_range(l, i + 1, j);
    assert(field@ =~= l@.subrange(i + 1, l.len() as int).subrange(0, (j - (i + 1)) as int));
    let t = trim_chars(&field);
    Some(to_lowercase(t.as_str()))
}

/// The lower-cased, trimmed value of the first line beginning with
/// `Hardware` in a `/proc/cpuinfo` text, where that line has a `:`.
pub fn hardware_field(cpuinfo: &str) -> (r: Option<String>)
    ensures
        match hardware_field_of(cpuinfo@) {
            Some(h) => r matches Some(s) && s@ == h,
            None => r is None,
        },
{
    let v = chars_of(cpuinfo);
    let n = v.len();
    let key = chars_of("Hardware");
    let mut pos: usize = 0;
    assert(v@.subrange(0, n as int) =~= v@);
    while pos < n
        invariant
            n == v.len(),
            v@ == cpuinfo@,
            key@ == "Hardware"@,
            pos <= n,
            first_with_prefix(lines(v@), key@) == first_with_prefix(
                lines(v@.subrange(pos as int, n as int)),
                key@,
            ),
        decreases n - pos,
    {
        let e = find_from(&v, '\n', pos);
        let mut end = e;
        if e < n && e > pos && v[e - 1] == '\r' {
            end = e - 1;
        }
        let line = vec_range(&v, pos, end);
        let ghost sub = v@.subrange(pos as int, n as int);
        proof {
            let ls = lines(sub);
            if e < n {
                assert(sub.subrange(0, e - pos) =~= v@.subrange(pos as int, e as int));
                assert(sub.subrange(e - pos + 1, sub.len() as int) =~= v@.subrange(e + 1, n as int));
                assert(line@ == strip_cr(v@.subrange(pos as int, e as int))) by {
                    if e > pos {
                        assert(v@.subrange(pos as int, e as int).drop_last() =~= v@.subrange(
                            pos as int,
                            e - 1,
                        ));
                    }
                }
                assert(ls == seq![line@] + lines(v@.subrange(e + 1, n as int)));
                assert(ls.drop_first() =~= lines(v@.subrange(e + 1, n as int)));
            } else {
                assert(sub =~= line@);
                assert(ls == seq![line@]);
                assert(ls.drop_first() =~= Seq::<Seq<char>>::empty());
            }
            assert(ls[0] == line@);
        }
        if has_prefix_exec(&line, &key) {
            return colon_field_value(&line);
        }
        if e >= n {
            proof {
                assert(first_with_prefix(Seq::<Seq<char>>::empty(), key@) is None);
            }
            return None;
        }
        pos = e + 1;
    }
    proof {
        assert(v@.subrange(pos as int, n as int) =~= Seq::<char>::empty());
    }
    None
}

/// The chip that a system on chip is, from the lower-cased hardware name
/// `hw` and the lower-cased SoC identifier `soc` (each empty where unknown).
pub open spec fn arm_soc_spec(hw: Seq<char>, soc: Seq<char>) -> Option<ChipView> {
    if has_infix(hw, "tensor"@) || has_infix(hw, "zuma"@) || has_infix(hw, "ripcurrent"@) || has_infix(
        soc,
        "zuma"@,
    ) {
        if has_infix(hw, "g4"@) || has_infix(hw, "zuma pro"@) {
            Some(("tensorG4"@, "Google Tensor G4"@, 7, 51))
        } else if has_infix(hw, "g3"@) || has_infix(hw, "zuma"@) {
            Some(("tensorG3"@, "Google Tensor G3"@, 7, 51))
        } else {
            Some(("tensorGeneric"@, "Google Tensor"@, 7, 40))
        }
    } else if has_infix(hw, "snapdragon"@) || has_infix(hw, "qcom"@) || has_infix(hw, "sm8"@) || has_infix(
        soc,
        "sm8"@,
    ) || has_infix(soc, "qcom"@) {
        Some(("snapdragon"@, "Qualcomm "@ + hw, 0, 44))
    } else if has_infix(hw, "exynos"@) || has_infix(soc, "exynos"@) {
        Some(("exynos"@, "Samsung Exynos ("@ + hw + ")"@, 0, 35))
    } else if has_infix(hw, "kirin"@) || has_infix(hw, "hisilicon"@) || has_infix(soc, "kirin"@) {
        Some(("kirin"@, "Huawei Kirin ("@ + hw + ")"@, 0, 35))
    } else if has_infix(hw, "mediatek"@) || has_infix(hw, "dimensity"@) || has_infix(soc, "mt6"@) {
        Some(("mediatek"@, "MediaTek ("@ + hw + ")"@, 0, 35))
    } else {
        None
    }
}

/// The hardware name of a `/proc/cpuinfo` text, or empty.
pub open spec fn hardware_name(cpuinfo: Seq<char>) -> Seq<char> {
    match hardware_field_of(cpuinfo) {
        Some(h) => h,
        None => Seq::empty(),
    }
}

/// The SoC identifier of the `soc_id` file contents, or empty.
pub open spec fn soc_name(soc_id: Option<Seq<char>>) -> Seq<char> {
    match soc_id {
        Some(s) => lowercase(trim(s)),
        None => Seq::empty(),
    }
}

/// Identifies an ARM system on chip (Google Tensor, Qualcomm Snapdragon,
/// Samsung Exynos, Huawei Kirin, MediaTek) from the text of `/proc/cpuinfo`
/// and the contents of the `soc_id` file, where they could be read.
pub fn classify_arm_soc(cpuinfo: &str, soc_id: Option<&str>) -> (r: Option<ChipInfo>)
    ensures
        chip_opt_view(r) == arm_soc_spec(
            hardware_name(cpuinfo@),
            soc_name(
                match soc_id {
                    Some(s) => Some(s@),
                    None => None,
                },
            ),
        ),
{
    let hw_s: String = match hardware_field(cpuinfo) {
        Some(h) => h,
        None => String::new(),
    };
    let soc_s: String = match soc_id {
        Some(s) => {
            let t = trim_str(s);
            to_lowercase(t.as_str())
        },
        None => String::new(),
    };
    let hw = chars_of(hw_s.as_str());
    let soc = chars_of(soc_s.as_str());
    let hws = hw_s.as_str();
    if holds(&hw, "tensor") || holds(&hw, "zuma") || holds(&hw, "ripcurrent") || holds(&soc, "zuma") {
        if holds(&hw, "g4") || holds(&hw, "zuma pro") {
            return Some(chip("tensorG4", "Google Tensor G4", 7, 51));
        }
        if holds(&hw, "g3") || holds(&hw, "zuma") {
            return Some(chip("tensorG3", "Google Tensor G3", 7, 51));
        }
        return Some(chip("tensorGeneric", "Google Tensor", 7, 40));
    }
    if holds(&hw, "snapdragon") || holds(&hw, "qcom") || holds(&hw, "sm8") || holds(&soc, "sm8") || holds(
        &soc,
        "qcom",
    ) {
        let name = concat2("Qualcomm ", hws);
        return Some(ChipInfo { chip_family: "snapdragon".to_owned(), chip_name: name, gpu_cores: 0, bandwidth_gbs: 44 });
    }
    if holds(&hw, "exynos") || holds(&soc, "exynos") {
        let name = concat3("Samsung Exynos (", hws, ")");
        return Some(ChipInfo { chip_family: "exynos".to_owned(), chip_name: name, gpu_cores: 0, bandwidth_gbs: 35 });
    }
    if holds(&hw, "kirin") || holds(&hw, "hisilicon") || holds(&soc, "kirin") {
        let name = concat3("Huawei Kirin (", hws, ")");
        return Some(ChipInfo { chip_family: "kirin".to_owned(), chip_name: name, gpu_cores: 0, bandwidth_gbs: 35 });
    }
    if holds(&hw, "mediatek") || holds(&hw, "dimensity") || holds(&soc, "mt6") {
        let name = concat3("MediaTek (", hws, ")");
        return Some(ChipInfo { chip_family: "mediatek".to_owned(), chip_name: name, gpu_cores: 0, bandwidth_gbs: 35 });
    }
    None
}

/// The platform reported for an operating system name (as Rust's target
/// names it).
pub open spec fn platform_name(os: Seq<char>) -> Seq<char> {
    if os == "macos"@ {
        "macOS"@
    } else if os == "linux"@ {
        "linux"@
    } else if os == "windows"@ {
        "windows"@
    } else if os == "android"@ {
        "android"@
    } else {
        "unknown"@
    }
}

/// The platform name reported to the network for an operating system name
/// (as Rust's target names it).
pub fn current_platform(os: &str) -> (r: &'static str)
    ensures
        r@ == platform_name(os@),
{
    if str_eq(os, "macos") {
        "macOS"
    } else if str_eq(os, "linux") {
        "linux"
    } else if str_eq(os, "windows") {
        "windows"
    } else if str_eq(os, "android") {
        "android"
    } else {
        "unknown"
    }
}

/// The chip family values of the protocol that a classification can give.
pub open spec fn documented_chip_family(f: Seq<char>) -> bool {
    ||| exists|i: int| 0 <= i < apple_patterns().len() && apple_patterns()[i].1 == f
    ||| f == "nvidiaGPU"@
    ||| f == "amdGPU"@
    ||| f == "intelCPU"@
    ||| f == "amdCPU"@
    ||| f == "armGeneric"@
    ||| f == "unknown"@
}

/// The chip family reported to the network: a mobile system on chip is an
/// ARM chip of no listed family, reported as "armGeneric"; other families
/// are reported as they are.
pub open spec fn reported_family(f: Seq<char>) -> Seq<char> {
    if mobile_soc(f) {
        "armGeneric"@
    } else {
        f
    }
}

proof fn lemma_not_mobile(f: Seq<char>)
    requires
        f.len() > 0,
        f[0] != 't',
        f[0] != 's',
        f[0] != 'k',
        f[0] != 'e',
        f[0] != 'm' || f.len() != 8,
    ensures
        !mobile_soc(f),
{
    reveal_strlit("tensor");
    reveal_strlit("snapdragon");
    reveal_strlit("kirin");
    reveal_strlit("exynos");
    reveal_strlit("mediatek");
    if has_prefix(f, "tensor"@) {
        assert(f.subrange(0, 6)[0] == f[0]);
        assert("tensor"@[0] == 't');
    }
    assert("snapdragon"@[0] == 's');
    assert("kirin"@[0] == 'k');
    assert("exynos"@[0] == 'e');
    assert("mediatek"@.len() == 8);
}

proof fn lemma_first_matching_documented(lower: Seq<char>, k: int)
    requires
        0 <= k <= apple_patterns().len(),
    ensures
        first_matching_family(lower, apple_patterns().skip(k)) == "unknown"@ || exists|i: int|
            0 <= i < apple_patterns().len() && apple_patterns()[i].1 == first_matching_family(
                lower,
                apple_patterns().skip(k),
            ),
    decreases apple_patterns().len() - k,
{
    let ps = apple_patterns().skip(k);
    if ps.len() > 0 {
        assert(ps[0] == apple_patterns()[k]);
        assert(ps.drop_first() =~= apple_patterns().skip(k + 1));
        lemma_first_matching_documented(lower, k + 1);
    }
}

proof fn lemma_apple_family_reported(lower: Seq<char>)
    ensures
        documented_chip_family(reported_family(apple_chip_family(lower))),
{
    assert(apple_patterns().skip(0) =~= apple_patterns());
    lemma_first_matching_documented(lower, 0);
    let f = apple_chip_family(lower);
    if f != "unknown"@ {
        let i = choose|i: int| 0 <= i < apple_patterns().len() && apple_patterns()[i].1 == f;
        reveal_strlit("m4Ultra");
        reveal_strlit("m4Max");
        reveal_strlit("m4Pro");
        reveal_strlit("m4");
        reveal_strlit("m3Ultra");
        reveal_strlit("m3Max");
        reveal_strlit("m3Pro");
        reveal_strlit("m3");
        reveal_strlit("m2Ultra");
        reveal_strlit("m2Max");
        reveal_strlit("m2Pro");
        reveal_strlit("m2");
        reveal_strlit("m1Ultra");
        reveal_strlit("m1Max");
        reveal_strlit("m1Pro");
        reveal_strlit("m1");
        assert(f.len() > 0 && f[0] == 'm' && f.len() <= 7);
        lemma_not_mobile(f);
    } else {
        reveal_strlit("unknown");
        lemma_not_mobile(f);
    }
}

/// Every chip family that the classification gives is reported as one of
/// the protocol's chip family values: the family of a named processor, of
/// an identified ARM system on chip, and of a generic ARM processor.
pub proof fn lemma_reported_families_documented(name: Seq<char>, hw: Seq<char>, soc: Seq<char>)
    ensures
        cpu_class_spec(name) matches Some(c) ==> documented_chip_family(reported_family(c.0)),
        arm_soc_spec(hw, soc) matches Some(c) ==> documented_chip_family(reported_family(c.0)),
        documented_chip_family(reported_family("armGeneric"@)),
{
    reveal_strlit("tensor");
    reveal_strlit("snapdragon");
    reveal_strlit("kirin");
    reveal_strlit("exynos");
    reveal_strlit("mediatek");
    reveal_strlit("armGeneric");
    reveal_strlit("intelCPU");
    reveal_strlit("amdCPU");
    reveal_strlit("unknown");
    reveal_strlit("tensorG4");
    reveal_strlit("tensorG3");
    reveal_strlit("tensorGeneric");
    lemma_not_mobile("armGeneric"@);
    lemma_not_mobile("intelCPU"@);
    lemma_not_mobile("amdCPU"@);
    lemma_not_mobile("unknown"@);
    assert(has_prefix("tensorG4"@, "tensor"@)) by {
        assert("tensorG4"@.subrange(0, 6) =~= "tensor"@);
    }
    assert(has_prefix("tensorG3"@, "tensor"@)) by {
        assert("tensorG3"@.subrange(0, 6) =~= "tensor"@);
    }
    assert(has_prefix("tensorGeneric"@, "tensor"@)) by {
        assert("tensorGeneric"@.subrange(0, 6) =~= "tensor"@);
    }
    lemma_apple_family_reported(lowercase(name));
}

/// What the node reports of its hardware, apart from the memory sizes.
#[derive(Debug)]
pub struct HardwareSummary {
    pub chip_family: String,
    pub chip_name: String,
    pub gpu_core_count: u32,
    pub bandwidth_gbs: u32,
    pub tier: u32,
    pub gpu_backend: String,
    pub platform: String,
}

/// The hardware report of a classified chip with `total_memory` bytes of
/// RAM: the reported family, the tier and GPU backend of the detailed
/// family (a configured GPU backend takes precedence), and the platform of
/// the operating system `os`.
pub fn summarize_hardware(
    chip: ChipInfo,
    total_memory: u64,
    configured_gpu_backend: Option<String>,
    android: bool,
    os: &str,
) -> (r: HardwareSummary)
    ensures
        r.chip_family@ == reported_family(chip.chip_family@),
        r.chip_name@ == chip.chip_name@,
        r.gpu_core_count == chip.gpu_cores,
        r.bandwidth_gbs == chip.bandwidth_gbs,
        r.tier == tier_for(chip.chip_family@, total_memory as int),
        r.gpu_backend@ == (match configured_gpu_backend {
            Some(b) => b@,
            None => gpu_backend_for(chip.chip_family@, android),
        }),
        r.platform@ == platform_name(os@),
{
    let tier = determine_tier(chip.chip_family.as_str(), total_memory);
    let gpu_backend = match configured_gpu_backend {
        Some(b) => b,
        None => infer_gpu_backend(chip.chip_family.as_str(), android).to_owned(),
    };
    let chip_family = if is_mobile_soc(chip.chip_family.as_str()) {
        "armGeneric".to_owned()
    } else {
        chip.chip_family
    };
    HardwareSummary {
        chip_family,
        chip_name: chip.chip_name,
        gpu_core_count: chip.gpu_cores,
        bandwidth_gbs: chip.bandwidth_gbs,
        tier,
        gpu_backend,
        platform: current_platform(os).to_owned(),
    }
}

} // verus!
