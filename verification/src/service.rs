//! The capabilities a native module exports and the entry points that
//! construct them.

use vstd::prelude::*;
use vstd::string::StringExecFns;

verus! {

/// How a capability object is owned once it has been constructed.
#[derive(Clone, Copy, Debug, PartialEq, Eq, Structural)]
pub enum Ownership {
    /// One owner, the pipeline that constructed the object.
    Exclusive,
    /// Reference counted: the pipeline and whatever it hands the object to.
    Counted,
}

/// A capability interface exported by a native service module.
#[derive(Clone, Copy, Debug, PartialEq, Eq, Structural)]
pub enum Capability {
    CompileService,
    Vm,
    AssemblyManager,
}

impl Capability {
    /// The virtual machine outlives the call that constructs it, because the
    /// execution context it spawns keeps it; the others stay with their
    /// pipeline.
    pub open spec fn ownership_of(self) -> Ownership {
        match self {
            Capability::Vm => Ownership::Counted,
            _ => Ownership::Exclusive,
        }
    }

    /// The file name, without directory, of the module that exports the
    /// capability: the compile service has a module of its own, the
    /// runtime module exports the rest.
    pub open spec fn module(self) -> Seq<char> {
        match self {
            Capability::CompileService => "CompileService"@,
            _ => "Runtime"@,
        }
    }

    pub fn module_name(&self) -> (name: &'static str)
        ensures
            name@ == self.module(),
    {
        match self {
            Capability::CompileService => "CompileService",
            Capability::Vm => "Runtime",
            Capability::AssemblyManager => "Runtime",
        }
    }

    pub fn ownership(&self) -> (mode: Ownership)
        ensures
            mode == self.ownership_of(),
    {
        match self {
            Capability::Vm => Ownership::Counted,
            Capability::CompileService => Ownership::Exclusive,
            Capability::AssemblyManager => Ownership::Exclusive,
        }
    }
}

/// Where the module of `capability` lies when no path is given: under
/// `Native` in the toolchain's home directory, or, without a home, wherever
/// the system finds the bare name.
pub open spec fn default_core_path(home: Option<Seq<char>>, capability: Capability) -> Seq<char> {
    match home {
        Some(home) => home + "/Native/"@ + capability.module(),
        None => capability.module(),
    }
}

pub fn default_core(home: Option<&str>, capability: Capability) -> (path: String)
    ensures
        path@ == default_core_path(
            match home {
                Some(home) => Some(home@),
                None => None,
            },
            capability,
        ),
{
    match home {
        Some(home) => {
            let mut path = home.to_owned();
            path.append("/Native/");
            path.append(capability.module_name());
            path
        },
        None => capability.module_name().to_owned(),
    }
}

/// A factory exported by a native module, resolved by its exact name.
///
/// The signature behind a name is part of the contract between launcher and
/// module. Nothing can check it at resolution time: a module that exports the
/// name with another signature breaks that contract unnoticed.
#[derive(Clone, Copy, Debug, PartialEq, Eq, Structural)]
pub enum EntryPoint {
    NewCompileService,
    NewCompileServiceWithConfig,
    NewVM,
    NewVMWithConfig,
    NewVMWithConfigAssemblyManager,
    NewAssemblyManager,
}

impl EntryPoint {
    /// The exported name.
    pub open spec fn symbol(self) -> Seq<char> {
        match self {
            EntryPoint::NewCompileService => "NewCompileService"@,
            EntryPoint::NewCompileServiceWithConfig => "NewCompileServiceWithConfig"@,
            EntryPoint::NewVM => "NewVM"@,
            EntryPoint::NewVMWithConfig => "NewVMWithConfig"@,
            EntryPoint::NewVMWithConfigAssemblyManager => "NewVMWithConfigAssemblyManager"@,
            EntryPoint::NewAssemblyManager => "NewAssemblyManager"@,
        }
    }

    /// The capability that the factory constructs.
    pub open spec fn constructs(self) -> Capability {
        match self {
            EntryPoint::NewCompileService | EntryPoint::NewCompileServiceWithConfig =>
                Capability::CompileService,
            EntryPoint::NewVM | EntryPoint::NewVMWithConfig
            | EntryPoint::NewVMWithConfigAssemblyManager => Capability::Vm,
            EntryPoint::NewAssemblyManager => Capability::AssemblyManager,
        }
    }

    /// Whether the factory is handed a configuration record.
    pub open spec fn configured(self) -> bool {
        self == EntryPoint::NewCompileServiceWithConfig || self == EntryPoint::NewVMWithConfig
            || self == EntryPoint::NewVMWithConfigAssemblyManager
    }

    /// Whether the factory is handed an assembly manager.
    pub open spec fn managed(self) -> bool {
        self == EntryPoint::NewVMWithConfigAssemblyManager
    }

    /// Whether the factory may report an error in place of a capability.
    pub open spec fn may_fail(self) -> bool {
        self.constructs() != Capability::CompileService
    }

    pub fn name(&self) -> (name: &'static str)
        ensures
            name@ == self.symbol(),
    {
        match self {
            EntryPoint::NewCompileService => "NewCompileService",
            EntryPoint::NewCompileServiceWithConfig => "NewCompileServiceWithConfig",
            EntryPoint::NewVM => "NewVM",
            EntryPoint::NewVMWithConfig => "NewVMWithConfig",
            EntryPoint::NewVMWithConfigAssemblyManager => "NewVMWithConfigAssemblyManager",
            EntryPoint::NewAssemblyManager => "NewAssemblyManager",
        }
    }

    pub fn capability(&self) -> (capability: Capability)
        ensures
            capability == self.constructs(),
    {
        match self {
            EntryPoint::NewCompileService => Capability::CompileService,
            EntryPoint::NewCompileServiceWithConfig => Capability::CompileService,
            EntryPoint::NewVM => Capability::Vm,
            EntryPoint::NewVMWithConfig => Capability::Vm,
            EntryPoint::NewVMWithConfigAssemblyManager => Capability::Vm,
            EntryPoint::NewAssemblyManager => Capability::AssemblyManager,
        }
    }

    pub fn takes_configuration(&self) -> (yes: bool)
        ensures
            yes == self.configured(),
    {
        match self {
            EntryPoint::NewCompileServiceWithConfig => true,
            EntryPoint::NewVMWithConfig => true,
            EntryPoint::NewVMWithConfigAssemblyManager => true,
            _ => false,
        }
    }

    pub fn takes_assembly_manager(&self) -> (yes: bool)
        ensures
            yes == self.managed(),
    {
        match self {
            EntryPoint::NewVMWithConfigAssemblyManager => true,
            _ => false,
        }
    }

    pub fn fallible(&self) -> (yes: bool)
        ensures
            yes == self.may_fail(),
    {
        match self {
            EntryPoint::NewCompileService => false,
            EntryPoint::NewCompileServiceWithConfig => false,
            _ => true,
        }
    }
}

/// No two entry points share an exported name, so a name resolves to one
/// factory at most.
pub proof fn lemma_symbols_distinct(a: EntryPoint, b: EntryPoint)
    requires
        a.symbol() == b.symbol(),
    ensures
        a == b,
{
    reveal_strlit("NewCompileService");
    reveal_strlit("NewCompileServiceWithConfig");
    reveal_strlit("NewVM");
    reveal_strlit("NewVMWithConfig");
    reveal_strlit("NewVMWithConfigAssemblyManager");
    reveal_strlit("NewAssemblyManager");
    assert("NewCompileService"@.len() == 17);
    assert("NewCompileServiceWithConfig"@.len() == 27);
    assert("NewVM"@.len() == 5);
    assert("NewVMWithConfig"@.len() == 15);
    assert("NewVMWithConfigAssemblyManager"@.len() == 30);
    assert("NewAssemblyManager"@.len() == 18);
    assert(a.symbol().len() == b.symbol().len());
}

} // verus!
