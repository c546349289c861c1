//! System requirements: the description of a minimal reference machine the
//! project needs, and its expansion into virtual-package requirements
//! filtered by platform relevance.

use vstd::prelude::*;
use crate::platform::Platform;

verus! {

/// A minimum libc requirement: an optional family (defaulting to glibc)
/// and a version.
pub struct LibCRequirement {
    pub family: Option<String>,
    pub version: String,
}

/// The mathematical content of a libc requirement.
#[verifier::ext_equal]
pub ghost struct LibCRequirementView {
    pub family: Option<Seq<char>>,
    pub version: Seq<char>,
}

impl View for LibCRequirement {
    type V = LibCRequirementView;

    open spec fn view(&self) -> LibCRequirementView {
        LibCRequirementView {
            family: match self.family {
                Some(f) => Some(f@),
                None => None,
            },
            version: self.version@,
        }
    }
}

/// The system requirements a manifest declares, each optional.
pub struct SystemRequirements {
    pub linux: Option<String>,
    pub libc: Option<LibCRequirement>,
    pub macos: Option<String>,
    pub cuda: Option<String>,
    pub archspec: Option<String>,
}

/// The mathematical content of a requirement set.
#[verifier::ext_equal]
pub ghost struct SystemRequirementsView {
    pub linux: Option<Seq<char>>,
    pub libc: Option<LibCRequirementView>,
    pub macos: Option<Seq<char>>,
    pub cuda: Option<Seq<char>>,
    pub archspec: Option<Seq<char>>,
}

impl View for SystemRequirements {
    type V = SystemRequirementsView;

    open spec fn view(&self) -> SystemRequirementsView {
        SystemRequirementsView {
            linux: match self.linux {
                Some(v) => Some(v@),
                None => None,
            },
            libc: match self.libc {
                Some(l) => Some(l@),
                None => None,
            },
            macos: match self.macos {
                Some(v) => Some(v@),
                None => None,
            },
            cuda: match self.cuda {
                Some(v) => Some(v@),
                None => None,
            },
            archspec: match self.archspec {
                Some(v) => Some(v@),
                None => None,
            },
        }
    }
}

/// A virtual package: a synthetic requirement on a property of the runtime
/// environment rather than an installable artifact.
pub enum VirtualPackage {
    Linux { version: String },
    LibC { family: String, version: String },
    Osx { version: String },
    Cuda { version: String },
    Archspec { spec: String },
}

/// The mathematical content of a virtual package.
#[verifier::ext_equal]
pub ghost enum VirtualPackageView {
    Linux { version: Seq<char> },
    LibC { family: Seq<char>, version: Seq<char> },
    Osx { version: Seq<char> },
    Cuda { version: Seq<char> },
    Archspec { spec: Seq<char> },
}

impl View for VirtualPackage {
    type V = VirtualPackageView;

    open spec fn view(&self) -> VirtualPackageView {
        match self {
            VirtualPackage::Linux { version } => VirtualPackageView::Linux { version: version@ },
            VirtualPackage::LibC { family, version } => VirtualPackageView::LibC {
                family: family@,
                version: version@,
            },
            VirtualPackage::Osx { version } => VirtualPackageView::Osx { version: version@ },
            VirtualPackage::Cuda { version } => VirtualPackageView::Cuda { version: version@ },
            VirtualPackage::Archspec { spec } => VirtualPackageView::Archspec { spec: spec@ },
        }
    }
}

impl DeepView for VirtualPackage {
    type V = VirtualPackageView;

    open spec fn deep_view(&self) -> VirtualPackageView {
        self.view()
    }
}

impl VirtualPackage {
    /// An owned copy with the same content.
    pub fn duplicate(&self) -> (r: VirtualPackage)
        ensures
            r@ == self@,
    {
        match self {
            VirtualPackage::Linux { version } => VirtualPackage::Linux {
                version: version.clone(),
            },
            VirtualPackage::LibC { family, version } => VirtualPackage::LibC {
                family: family.clone(),
                version: version.clone(),
            },
            VirtualPackage::Osx { version } => VirtualPackage::Osx { version: version.clone() },
            VirtualPackage::Cuda { version } => VirtualPackage::Cuda { version: version.clone() },
            VirtualPackage::Archspec { spec } => VirtualPackage::Archspec { spec: spec.clone() },
        }
    }
}

/// The virtual packages a requirement set expands to, in declared order:
/// linux kernel, libc (family defaulting to glibc), macOS, CUDA, archspec.
pub open spec fn spec_virtual_packages(s: SystemRequirementsView) -> Seq<VirtualPackageView> {
    (match s.linux {
        Some(v) => seq![VirtualPackageView::Linux { version: v }],
        None => Seq::<VirtualPackageView>::empty(),
    }) + (match s.libc {
        Some(l) => seq![
            VirtualPackageView::LibC {
                family: match l.family {
                    Some(f) => f,
                    None => "glibc"@,
                },
                version: l.version,
            },
        ],
        None => Seq::<VirtualPackageView>::empty(),
    }) + (match s.macos {
        Some(v) => seq![VirtualPackageView::Osx { version: v }],
        None => Seq::<VirtualPackageView>::empty(),
    }) + (match s.cuda {
        Some(v) => seq![VirtualPackageView::Cuda { version: v }],
        None => Seq::<VirtualPackageView>::empty(),
    }) + (match s.archspec {
        Some(v) => seq![VirtualPackageView::Archspec { spec: v }],
        None => Seq::<VirtualPackageView>::empty(),
    })
}

/// Whether a virtual package is irrelevant on a platform: libc and kernel
/// requirements concern Linux only, macOS version requirements concern
/// macOS only; CUDA and archspec requirements apply everywhere.
pub open spec fn spec_non_relevant(v: VirtualPackageView, p: Platform) -> bool {
    match v {
        VirtualPackageView::Linux { .. } => !p.spec_is_linux(),
        VirtualPackageView::LibC { .. } => !p.spec_is_linux(),
        VirtualPackageView::Osx { .. } => !p.spec_is_osx(),
        VirtualPackageView::Cuda { .. } => false,
        VirtualPackageView::Archspec { .. } => false,
    }
}

/// The declared virtual packages that survive relevance filtering for a
/// platform, in declared order.
pub open spec fn spec_relevant_packages(vs: Seq<VirtualPackageView>, p: Platform) -> Seq<
    VirtualPackageView,
>
    decreases vs.len(),
{
    if vs.len() == 0 {
        Seq::<VirtualPackageView>::empty()
    } else {
        spec_relevant_packages(vs.drop_last(), p) + (if spec_non_relevant(vs.last(), p) {
            Seq::<VirtualPackageView>::empty()
        } else {
            seq![vs.last()]
        })
    }
}

impl SystemRequirements {
    /// The empty requirement set.
    pub fn none() -> (r: SystemRequirements)
        ensures
            r@ == (SystemRequirementsView {
                linux: None,
                libc: None,
                macos: None,
                cuda: None,
                archspec: None,
            }),
    {
        SystemRequirements { linux: None, libc: None, macos: None, cuda: None, archspec: None }
    }

    /// Expand the declared requirements into virtual-package requirement
    /// entries, in declared order.
    pub fn virtual_packages(&self) -> (r: Vec<VirtualPackage>)
        ensures
            r.deep_view() == spec_virtual_packages(self@),
    {
        let mut r: Vec<VirtualPackage> = Vec::new();
        match &self.linux {
            Some(v) => r.push(VirtualPackage::Linux { version: v.clone() }),
            None => (),
        }
        match &self.libc {
            Some(l) => {
                let family = match &l.family {
                    Some(f) => f.clone(),
                    None => "glibc".to_owned(),
                };
                r.push(VirtualPackage::LibC { family, version: l.version.clone() });
            },
            None => (),
        }
        match &self.macos {
            Some(v) => r.push(VirtualPackage::Osx { version: v.clone() }),
            None => (),
        }
        match &self.cuda {
            Some(v) => r.push(VirtualPackage::Cuda { version: v.clone() }),
            None => (),
        }
        match &self.archspec {
            Some(v) => r.push(VirtualPackage::Archspec { spec: v.clone() }),
            None => (),
        }
        proof {
            assert(r.deep_view() =~= spec_virtual_packages(self@));
        }
        r
    }
}

/// Whether a virtual-package requirement is irrelevant on the platform.
pub fn non_relevant_virtual_packages_for_platform(req: &VirtualPackage, platform: Platform) -> (r:
    bool)
    ensures
        r == spec_non_relevant(req@, platform),
{
    match req {
        VirtualPackage::Linux { .. } => !platform.is_linux(),
        VirtualPackage::LibC { .. } => !platform.is_linux(),
        VirtualPackage::Osx { .. } => !platform.is_osx(),
        VirtualPackage::Cuda { .. } => false,
        VirtualPackage::Archspec { .. } => false,
    }
}

} // verus!
