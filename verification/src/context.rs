use vstd::prelude::*;

verus! {

/// Package manager types supported by the builder.
#[derive(Debug, Clone, Copy, PartialEq, Eq, Hash, Structural)]
pub enum PackageManager {
    /// RPM (used by LevitateOS / Rocky Linux)
    Rpm,
    /// APK (used by AcornOS, IuppiterOS / Alpine Linux)
    Apk,
}

/// Init system types supported by the builder.
#[derive(Debug, Clone, Copy, PartialEq, Eq, Hash, Structural)]
pub enum InitSystem {
    /// systemd (used by LevitateOS)
    Systemd,
    /// OpenRC (used by AcornOS)
    OpenRC,
}

impl InitSystem {
    /// The display name of the init system.
    pub open spec fn spec_name(self) -> Seq<char> {
        match self {
            InitSystem::Systemd => "systemd"@,
            InitSystem::OpenRC => "OpenRC"@,
        }
    }

    /// The display name of the init system (what `Display` printed).
    pub fn name(&self) -> (r: String)
        ensures
            r@ == self.spec_name(),
    {
        match self {
            InitSystem::Systemd => String::from_str("systemd"),
            InitSystem::OpenRC => String::from_str("OpenRC"),
        }
    }
}

/// The configuration of a distribution, implemented by each distro.
pub trait DistroConfig: crate::kernel::KernelInstallConfig {
    /// OS name for display (e.g. "LevitateOS", "AcornOS").
    fn os_name(&self) -> &str;

    /// OS identifier used in paths (e.g. "levitateos", "acornos").
    fn os_id(&self) -> &str;

    /// ISO volume label for boot device detection.
    fn iso_label(&self) -> &str;

    /// Kernel modules required for boot.
    fn boot_modules(&self) -> Vec<String>;

    /// Default shell for the system.
    fn default_shell(&self) -> &str;

    /// Init system type.
    fn init_system(&self) -> InitSystem;
}

/// Simple build context holding the four directories of a build.
#[derive(Debug)]
pub struct SimpleBuildContext {
    /// Path to the source rootfs
    pub source: String,
    /// Path to the staging directory
    pub staging: String,
    /// Base directory of the builder project
    pub base_dir: String,
    /// Output directory for build artifacts
    pub output: String,
}

impl SimpleBuildContext {
    /// Create a new simple build context.
    pub fn new(source: String, staging: String, base_dir: String, output: String) -> (r: Self)
        ensures
            r.source == source,
            r.staging == staging,
            r.base_dir == base_dir,
            r.output == output,
    {
        SimpleBuildContext { source, staging, base_dir, output }
    }
}

} // verus!
