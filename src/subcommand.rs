use vstd::prelude::*;

verus! {

/// The subcommands that the runner knows how to supervise.
#[derive(Debug, Clone, Copy, PartialEq, Eq)]
pub enum Subcommand {
    BuildSpec,
    ExportBlocks,
    ImportBlocks,
    CheckBlock,
    Revert,
    PurgeChain,
    ExportState,
}

/// What a subcommand takes from the configuration and from the builder.
#[derive(Debug, Clone, Copy, PartialEq, Eq)]
pub struct Inputs {
    pub client: bool,
    pub backend: bool,
    pub import_queue: bool,
    pub chain_spec: bool,
    pub network: bool,
    pub database: bool,
}

pub open spec fn is_synchronous_spec(s: Subcommand) -> bool {
    s == Subcommand::BuildSpec || s == Subcommand::PurgeChain
}

pub open spec fn inputs_of(s: Subcommand) -> Inputs {
    let none = Inputs {
        client: false,
        backend: false,
        import_queue: false,
        chain_spec: false,
        network: false,
        database: false,
    };
    match s {
        Subcommand::BuildSpec => Inputs { chain_spec: true, network: true, ..none },
        Subcommand::ExportBlocks => Inputs { client: true, database: true, ..none },
        Subcommand::ImportBlocks => Inputs { client: true, import_queue: true, ..none },
        Subcommand::CheckBlock => Inputs { client: true, import_queue: true, ..none },
        Subcommand::Revert => Inputs { client: true, backend: true, ..none },
        Subcommand::PurgeChain => Inputs { database: true, ..none },
        Subcommand::ExportState => Inputs { client: true, chain_spec: true, ..none },
    }
}

impl Subcommand {
    /// Whether the subcommand runs to completion without the builder and
    /// without the worker pool.
    pub fn is_synchronous(&self) -> (r: bool)
        ensures
            r == is_synchronous_spec(*self),
    {
        match self {
            Subcommand::BuildSpec | Subcommand::PurgeChain => true,
            _ => false,
        }
    }

    /// The inputs that the subcommand consumes.
    pub fn inputs(&self) -> (r: Inputs)
        ensures
            r == inputs_of(*self),
    {
        let none = Inputs {
            client: false,
            backend: false,
            import_queue: false,
            chain_spec: false,
            network: false,
            database: false,
        };
        match self {
            Subcommand::BuildSpec => Inputs { chain_spec: true, network: true, ..none },
            Subcommand::ExportBlocks => Inputs { client: true, database: true, ..none },
            Subcommand::ImportBlocks => Inputs { client: true, import_queue: true, ..none },
            Subcommand::CheckBlock => Inputs { client: true, import_queue: true, ..none },
            Subcommand::Revert => Inputs { client: true, backend: true, ..none },
            Subcommand::PurgeChain => Inputs { database: true, ..none },
            Subcommand::ExportState => Inputs { client: true, chain_spec: true, ..none },
        }
    }
}

/// A subcommand needs the builder's resources exactly when it is not
/// synchronous.
pub proof fn lemma_synchronous_needs_no_builder(s: Subcommand)
    ensures
        is_synchronous_spec(s) <==> !(inputs_of(s).client || inputs_of(s).backend
            || inputs_of(s).import_queue),
{
}

} // verus!
