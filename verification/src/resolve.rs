//! The layered configuration resolver.
//!
//! A [`RawLayer`] is one source's partial opinion: every field is optional,
//! and an absent field means "this layer expresses no opinion". Three layers
//! (command line, environment, configuration file) are merged by [`resolve`]
//! in descending precedence, falling back to the compiled-in defaults, into
//! one [`EffectiveConfig`].

use vstd::prelude::*;

verus! {

/// Compiled-in default verbosity level.
pub const DEFAULT_VERBOSITY_LEVEL: u64 = 0;

/// Compiled-in default for simulate (dry-run) mode.
pub const DEFAULT_SIMULATE: bool = false;

/// One source's partial configuration: a field that is `None` expresses no
/// opinion and leaves the choice to lower-precedence layers or the defaults.
#[derive(Debug, Clone, PartialEq, Eq)]
pub struct RawLayer {
    pub cfg_file_path: Option<String>,
    pub verbosity_level: Option<u64>,
    pub simulate: Option<bool>,
}

/// The single merged configuration: exactly one value per field, chosen from
/// the highest-precedence layer that supplied one, immutable after the merge.
#[derive(Debug, Clone, PartialEq, Eq)]
pub struct EffectiveConfig {
    pub cfg_file_path: Option<String>,
    pub verbosity_level: u64,
    pub simulate: bool,
}

impl RawLayer {
    /// A layer that expresses no opinion on any field.
    pub open spec fn spec_empty() -> RawLayer {
        RawLayer { cfg_file_path: None, verbosity_level: None, simulate: None }
    }

    /// True when this layer expresses no opinion on any field.
    pub open spec fn is_empty(self) -> bool {
        self == RawLayer::spec_empty()
    }

    /// Build the layer that expresses no opinion on any field.
    pub fn empty() -> (r: RawLayer)
        ensures
            r == RawLayer::spec_empty(),
    {
        RawLayer { cfg_file_path: None, verbosity_level: None, simulate: None }
    }
}

/// The first of three optional values that is present, or `None`.
pub open spec fn first_opinion<T>(hi: Option<T>, mid: Option<T>, lo: Option<T>) -> Option<T> {
    if hi is Some {
        hi
    } else if mid is Some {
        mid
    } else {
        lo
    }
}

/// The first of three optional values that is present, or `dflt` when none is.
pub open spec fn first_opinion_or<T>(hi: Option<T>, mid: Option<T>, lo: Option<T>, dflt: T) -> T {
    match first_opinion(hi, mid, lo) {
        Some(v) => v,
        None => dflt,
    }
}

/// The configuration that holds the compiled-in default for every field.
pub open spec fn spec_default_config() -> EffectiveConfig {
    EffectiveConfig {
        cfg_file_path: None,
        verbosity_level: DEFAULT_VERBOSITY_LEVEL,
        simulate: DEFAULT_SIMULATE,
    }
}

/// What [`resolve`] returns: field by field, the value of the
/// highest-precedence layer that supplies one, or the compiled-in default.
pub open spec fn spec_resolve(cli: RawLayer, env: RawLayer, file: RawLayer) -> EffectiveConfig {
    EffectiveConfig {
        cfg_file_path: first_opinion(cli.cfg_file_path, env.cfg_file_path, file.cfg_file_path),
        verbosity_level: first_opinion_or(
            cli.verbosity_level,
            env.verbosity_level,
            file.verbosity_level,
            DEFAULT_VERBOSITY_LEVEL,
        ),
        simulate: first_opinion_or(cli.simulate, env.simulate, file.simulate, DEFAULT_SIMULATE),
    }
}

/// Pick the first present of three optional values, moving it out.
fn merge_field<T>(hi: Option<T>, mid: Option<T>, lo: Option<T>) -> (r: Option<T>)
    ensures
        r == first_opinion(hi, mid, lo),
{
    match hi {
        Some(v) => Some(v),
        None => match mid {
            Some(v) => Some(v),
            None => lo,
        },
    }
}

/// Merge the three layers into one effective configuration.
///
/// For each field the layers are consulted in precedence order: command line,
/// then environment, then configuration file; the first layer supplying a
/// present value wins, and when none does the compiled-in default is used.
/// The merge is a pure function of its inputs and cannot fail: absence is a
/// legal value at every layer.
pub fn resolve(cli: RawLayer, env: RawLayer, file: RawLayer) -> (r: EffectiveConfig)
    ensures
        r == spec_resolve(cli, env, file),
{
    let cfg_file_path = merge_field(cli.cfg_file_path, env.cfg_file_path, file.cfg_file_path);
    let verbosity_level = match merge_field(
        cli.verbosity_level,
        env.verbosity_level,
        file.verbosity_level,
    ) {
        Some(v) => v,
        None => DEFAULT_VERBOSITY_LEVEL,
    };
    let simulate = match merge_field(cli.simulate, env.simulate, file.simulate) {
        Some(v) => v,
        None => DEFAULT_SIMULATE,
    };
    EffectiveConfig { cfg_file_path, verbosity_level, simulate }
}

impl Default for EffectiveConfig {
    /// The compiled-in default configuration.
    fn default() -> (r: EffectiveConfig)
        ensures
            r == spec_default_config(),
    {
        EffectiveConfig {
            cfg_file_path: None,
            verbosity_level: DEFAULT_VERBOSITY_LEVEL,
            simulate: DEFAULT_SIMULATE,
        }
    }
}

/// Precedence law: for every field, the merged value is the value of the
/// highest-precedence layer that supplies one, and when no layer supplies
/// one it is the compiled-in default.
pub proof fn lemma_precedence(cli: RawLayer, env: RawLayer, file: RawLayer)
    ensures
        cli.cfg_file_path is Some ==> spec_resolve(cli, env, file).cfg_file_path
            == cli.cfg_file_path,
        cli.cfg_file_path is None && env.cfg_file_path is Some ==> spec_resolve(
            cli,
            env,
            file,
        ).cfg_file_path == env.cfg_file_path,
        cli.cfg_file_path is None && env.cfg_file_path is None ==> spec_resolve(
            cli,
            env,
            file,
        ).cfg_file_path == file.cfg_file_path,
        cli.verbosity_level is Some ==> spec_resolve(cli, env, file).verbosity_level
            == cli.verbosity_level.unwrap(),
        cli.verbosity_level is None && env.verbosity_level is Some ==> spec_resolve(
            cli,
            env,
            file,
        ).verbosity_level == env.verbosity_level.unwrap(),
        cli.verbosity_level is None && env.verbosity_level is None && file.verbosity_level is Some
            ==> spec_resolve(cli, env, file).verbosity_level == file.verbosity_level.unwrap(),
        cli.verbosity_level is None && env.verbosity_level is None && file.verbosity_level is None
            ==> spec_resolve(cli, env, file).verbosity_level == DEFAULT_VERBOSITY_LEVEL,
        cli.simulate is Some ==> spec_resolve(cli, env, file).simulate == cli.simulate.unwrap(),
        cli.simulate is None && env.simulate is Some ==> spec_resolve(cli, env, file).simulate
            == env.simulate.unwrap(),
        cli.simulate is None && env.simulate is None && file.simulate is Some ==> spec_resolve(
            cli,
            env,
            file,
        ).simulate == file.simulate.unwrap(),
        cli.simulate is None && env.simulate is None && file.simulate is None ==> spec_resolve(
            cli,
            env,
            file,
        ).simulate == DEFAULT_SIMULATE,
{
}

/// Absence-is-safe law: resolving three empty layers yields exactly the
/// compiled-in defaults.
pub proof fn lemma_empty_layers_yield_defaults(cli: RawLayer, env: RawLayer, file: RawLayer)
    requires
        cli.is_empty(),
        env.is_empty(),
        file.is_empty(),
    ensures
        spec_resolve(cli, env, file) == spec_default_config(),
{
}

/// Idempotence law: resolution has no hidden state, so resolving twice with
/// identical layer inputs yields identical effective configurations.
pub proof fn lemma_resolve_idempotent(
    cli1: RawLayer,
    env1: RawLayer,
    file1: RawLayer,
    cli2: RawLayer,
    env2: RawLayer,
    file2: RawLayer,
)
    requires
        cli1 == cli2,
        env1 == env2,
        file1 == file2,
    ensures
        spec_resolve(cli1, env1, file1) == spec_resolve(cli2, env2, file2),
{
}

} // verus!
