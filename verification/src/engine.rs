//! The engine handle: how it is configured and built, how it classifies a
//! payload, and how it compiles layers ahead of time.

use std::marker::PhantomData;
use vstd::prelude::*;
use crate::binary::{
    classification, classify_probed, elf_magic, lemma_elf_is_no_source, source_kind, starts_with,
    ClassifiedBinary, Precompiled, WasmBinaryType,
};
use crate::shutdown::{Notice, Shutdown, ShutdownAction};
use crate::target::{
    export_names, lemma_resolution_is_one_of_three, resolution, ComponentTarget,
};
use crate::text::{decimal, decimal_text};

verus! {

/// `wasmtime::Engine`: the compiler and what it shares between executions.
/// Of what it holds only the compatibility number is spoken of here, under
/// the name [`compatibility_number`].
#[verifier::external_type_specification]
#[verifier::external_body]
pub struct ExEngine(wasmtime::Engine);

/// `wasmtime::Config`: the settings that an engine is built from. Nothing of
/// it is visible here.
#[verifier::external_type_specification]
#[verifier::external_body]
pub struct ExConfig(wasmtime::Config);

/// `wasmtime::component::Component`: a component that the engine has
/// compiled or read back. Of what it holds only the export list is spoken
/// of here, under the name [`exported_names`].
#[verifier::external_type_specification]
#[verifier::external_body]
pub struct ExComponent(wasmtime::component::Component);

/// `anyhow::Error`: the error that the engine's functions return. Of what it
/// holds only a guest's request to exit is spoken of, under the name
/// `exit_request` of the module `exit`.
#[verifier::external_type_specification]
#[verifier::external_body]
pub struct ExError(anyhow::Error);

/// `tokio_util::sync::CancellationToken`: the shared signal that asks for a
/// shutdown. Nothing of it is visible here.
#[verifier::external_type_specification]
#[verifier::external_body]
pub struct ExCancellationToken(tokio_util::sync::CancellationToken);

/// The number that stands for what `engine` compiles with and for: its
/// configuration and its target, as `compatibility_hash` reads them.
pub uninterp spec fn compatibility_number(engine: wasmtime::Engine) -> u64;

/// The probe may have answered `probe` for `bytes`: it says `Some` only of
/// bytes that begin as an object file does.
pub open spec fn probe_admits(bytes: Seq<u8>, probe: Option<Precompiled>) -> bool {
    probe is Some ==> starts_with(bytes, elf_magic())
}

/// `wasmtime::Config::new`: a configuration with the engine's defaults.
pub assume_specification[ wasmtime::Config::new ]() -> wasmtime::Config;

/// `wasmtime::Engine::new`: validates the configuration and builds the
/// compiler for it; nothing is promised of the outcome.
pub assume_specification[ wasmtime::Engine::new ](config: &wasmtime::Config) -> Result<
    wasmtime::Engine,
    anyhow::Error,
>;

/// `wasmtime::Engine::precompile_module`: compiles a core module to a
/// serialized artifact, or reports why it could not.
pub assume_specification[ wasmtime::Engine::precompile_module ](
    engine: &wasmtime::Engine,
    bytes: &[u8],
) -> Result<Vec<u8>, anyhow::Error>;

/// `wasmtime::Engine::precompile_component`: the same for a component.
pub assume_specification[ wasmtime::Engine::precompile_component ](
    engine: &wasmtime::Engine,
    bytes: &[u8],
) -> Result<Vec<u8>, anyhow::Error>;

/// `tokio_util::sync::CancellationToken::new`: a token that nobody has
/// cancelled yet.
pub assume_specification[ tokio_util::sync::CancellationToken::new ](
) -> tokio_util::sync::CancellationToken;

/// `tokio_util::sync::CancellationToken::cancel`: marks the token, and every
/// clone of it, as cancelled. Doing so twice is the same as once.
pub assume_specification[ tokio_util::sync::CancellationToken::cancel ](
    token: &tokio_util::sync::CancellationToken,
);

/// `wasmtime::Config::wasm_component_model`: switches the component model on
/// in `config`.
#[verifier::external_body]
fn enable_component_model(config: &mut wasmtime::Config) {
    config.wasm_component_model(true);
}

/// `wasmtime::Config::async_support`: switches asynchronous execution on in
/// `config`.
#[verifier::external_body]
fn enable_async(config: &mut wasmtime::Config) {
    config.async_support(true);
}

/// `wasmtime::Engine::detect_precompiled`: parses the slice as a 64-bit ELF
/// file and tells from its header flags whether the engine wrote it, and as
/// which kind. The answer is `Some` only for a slice that parses, and such a
/// slice begins with the ELF magic number. Nothing else is promised: whether
/// a slice parses also depends on where it lies in memory.
#[verifier::external_body]
fn detect_precompiled(engine: &wasmtime::Engine, bytes: &[u8]) -> (probe: Option<Precompiled>)
    ensures
        probe_admits(bytes@, probe),
{
    match engine.detect_precompiled(bytes) {
        Some(wasmtime::Precompiled::Module) => Some(Precompiled::Module),
        Some(wasmtime::Precompiled::Component) => Some(Precompiled::Component),
        None => None,
    }
}

/// `wasmtime::Engine::precompile_compatibility_hash`, fed to a hasher that
/// std's `DefaultHasher::new` made: the engine's compatibility number. The
/// hash reads only what the engine holds, and every hasher made by `new` is
/// the same.
#[verifier::external_body]
fn compatibility_hash(engine: &wasmtime::Engine) -> (hash: u64)
    ensures
        hash == compatibility_number(*engine),
{
    let mut hasher = std::collections::hash_map::DefaultHasher::new();
    std::hash::Hash::hash(&engine.precompile_compatibility_hash(), &mut hasher);
    std::hash::Hasher::finish(&hasher)
}

/// The names in the export list that `component` holds, in the list's order.
/// The list is part of the component's type and is fixed when the component
/// is made.
pub uninterp spec fn exported_names(component: wasmtime::component::Component) -> Seq<Seq<char>>;

/// `wasmtime::component::Component::component_type` and the `exports` of
/// that type, which walks the component's export list, an ordered map from
/// names to types, from front to back: the names of that list, each as a
/// string of its own, in the list's order.
#[verifier::external_body]
fn component_exports(
    engine: &wasmtime::Engine,
    component: &wasmtime::component::Component,
) -> (names: Vec<String>)
    ensures
        export_names(names@) == exported_names(*component),
{
    component.component_type().exports(engine).map(|(name, _)| name.to_string()).collect()
}

/// `Clone::clone` of `tokio_util::sync::CancellationToken`: another handle on
/// the same token. The token is one shared pointer, and the clone holds the
/// same pointer, so the two are the same value.
#[verifier::external_body]
fn share_token(token: &tokio_util::sync::CancellationToken) -> (handle:
    tokio_util::sync::CancellationToken)
    ensures
        handle == *token,
{
    token.clone()
}

/// `Clone::clone` of `wasmtime::Engine`: another handle on the same engine.
/// The engine is one shared pointer, and the clone holds the same pointer, so
/// the two are the same value.
#[verifier::external_body]
fn share_engine(engine: &wasmtime::Engine) -> (handle: wasmtime::Engine)
    ensures
        handle == *engine,
{
    engine.clone()
}

/// Where an engine's configuration comes from.
pub trait WasiConfig: Clone + Sync + Send + 'static {
    fn new_config() -> wasmtime::Config;
}

/// The configuration that the shim runs with: the engine's defaults and the
/// component model.
#[derive(Clone, Copy)]
pub struct DefaultConfig {}

impl WasiConfig for DefaultConfig {
    fn new_config() -> wasmtime::Config {
        let mut config = wasmtime::Config::new();
        enable_component_model(&mut config);
        config
    }
}

/// What becomes of one layer when layers are compiled ahead of time.
#[derive(Clone, Copy, Debug, PartialEq, Eq, Structural)]
pub enum LayerPlan {
    /// Already compiled: nothing is encoded again.
    Keep,
    /// A core module: compile it.
    CompileModule,
    /// A component: compile it.
    CompileComponent,
    /// Neither: the layer is passed over.
    Skip,
}

/// The plan for a layer. The probe decides first, so that what is compiled
/// already is never compiled again.
pub open spec fn layer_plan(bytes: Seq<u8>, probe: Option<Precompiled>) -> LayerPlan {
    if probe is Some {
        LayerPlan::Keep
    } else {
        match source_kind(bytes) {
            Some(WasmBinaryType::Module) => LayerPlan::CompileModule,
            Some(WasmBinaryType::Component) => LayerPlan::CompileComponent,
            None => LayerPlan::Skip,
        }
    }
}

/// The plan for `bytes`, given the probe's answer.
pub fn plan_layer(bytes: &[u8], probe: Option<Precompiled>) -> (plan: LayerPlan)
    ensures
        plan == layer_plan(bytes@, probe),
{
    if probe.is_some() {
        return LayerPlan::Keep;
    }
    match WasmBinaryType::from_bytes(bytes) {
        Some(WasmBinaryType::Module) => LayerPlan::CompileModule,
        Some(WasmBinaryType::Component) => LayerPlan::CompileComponent,
        None => LayerPlan::Skip,
    }
}

/// What became of one layer.
#[derive(Debug)]
pub enum LayerResult {
    /// It is compiled already and was left as it is.
    Kept,
    /// It was handed to the compiler, which said this.
    Compiled(Result<Vec<u8>, anyhow::Error>),
    /// It is neither compiled nor a source, and was passed over.
    Skipped,
}

/// A layer with this plan can have this result: what is kept was not
/// compiled, what is passed over neither, and what is to be compiled was
/// handed to the compiler.
pub open spec fn result_fits(plan: LayerPlan, result: LayerResult) -> bool {
    match plan {
        LayerPlan::Keep => result is Kept,
        LayerPlan::CompileModule => result is Compiled,
        LayerPlan::CompileComponent => result is Compiled,
        LayerPlan::Skip => result is Skipped,
    }
}

/// `results` are results of the first layers of `layers`, one by one, under
/// answers that the probe may have given for them.
pub open spec fn results_fit(
    layers: Seq<Seq<u8>>,
    probes: Seq<Option<Precompiled>>,
    results: Seq<LayerResult>,
) -> bool {
    &&& results.len() <= layers.len()
    &&& probes.len() == results.len()
    &&& forall|i: int| 0 <= i < probes.len() ==> probe_admits(layers[i], #[trigger] probes[i])
    &&& forall|i: int|
        0 <= i < results.len() ==> result_fits(
            layer_plan(layers[i], probes[i]),
            #[trigger] results[i],
        )
}

/// The output with one more layer's result: `None` for a layer that was
/// kept, the artifact for one that the compiler accepted, nothing for one
/// that was passed over, and the compiler's error, in place of any output,
/// for one that it refused.
pub open spec fn extended(out: Seq<Option<Vec<u8>>>, result: LayerResult) -> Result<
    Seq<Option<Vec<u8>>>,
    anyhow::Error,
> {
    match result {
        LayerResult::Kept => Ok(out.push(None)),
        LayerResult::Compiled(Ok(artifact)) => Ok(out.push(Some(artifact))),
        LayerResult::Compiled(Err(error)) => Err(error),
        LayerResult::Skipped => Ok(out),
    }
}

/// The output that the layers' results make, taken in their order; the first
/// error among them ends the work and is the outcome.
pub open spec fn assembled(results: Seq<LayerResult>) -> Result<
    Seq<Option<Vec<u8>>>,
    anyhow::Error,
>
    decreases results.len(),
{
    if results.len() == 0 {
        Ok(Seq::empty())
    } else {
        match assembled(results.drop_last()) {
            Ok(out) => extended(out, results.last()),
            Err(error) => Err(error),
        }
    }
}

/// `result` is an error of the compiler.
pub open spec fn is_refusal(result: LayerResult) -> bool {
    result matches LayerResult::Compiled(Err(_))
}

/// Takes one layer's result into the output: see [`extended`]. On an error
/// the output stays as it is.
pub fn add_layer(out: &mut Vec<Option<Vec<u8>>>, result: LayerResult) -> (status: Result<
    (),
    anyhow::Error,
>)
    ensures
        match extended(old(out)@, result) {
            Ok(next) => status is Ok && final(out)@ == next,
            Err(error) => status == Err::<(), anyhow::Error>(error) && final(out)@ == old(out)@,
        },
{
    match result {
        LayerResult::Kept => {
            out.push(None);
            Ok(())
        },
        LayerResult::Compiled(Ok(artifact)) => {
            out.push(Some(artifact));
            Ok(())
        },
        LayerResult::Compiled(Err(error)) => Err(error),
        LayerResult::Skipped => Ok(()),
    }
}

/// An error comes from the compiler alone: where the outcome is an error, it
/// is what the compiler said of some layer, and the compiler had accepted
/// every layer before that one.
pub proof fn lemma_error_is_the_compilers(results: Seq<LayerResult>)
    requires
        assembled(results) is Err,
    ensures
        exists|at: int|
            0 <= at < results.len() && #[trigger] results[at] == LayerResult::Compiled(
                Err(assembled(results)->Err_0),
            ) && forall|before: int| 0 <= before < at ==> !is_refusal(#[trigger] results[before]),
    decreases results.len(),
{
    let init = results.drop_last();
    if assembled(init) is Err {
        lemma_error_is_the_compilers(init);
        let at = choose|at: int|
            0 <= at < init.len() && #[trigger] init[at] == LayerResult::Compiled(
                Err(assembled(init)->Err_0),
            ) && forall|before: int| 0 <= before < at ==> !is_refusal(#[trigger] init[before]);
        assert(results[at] == init[at]);
        assert forall|before: int| 0 <= before < at implies !is_refusal(
            #[trigger] results[before],
        ) by {
            assert(results[before] == init[before]);
        }
    } else {
        let at = results.len() - 1;
        assert(results[at] == results.last());
        assert forall|before: int| 0 <= before < at implies !is_refusal(
            #[trigger] results[before],
        ) by {
            assert(results[before] == init[before]);
            if is_refusal(init[before]) {
                lemma_refusal_is_an_error(init, before);
            }
        }
    }
}

/// A layer that the compiler refused makes the outcome an error.
pub proof fn lemma_refusal_is_an_error(results: Seq<LayerResult>, at: int)
    requires
        0 <= at < results.len(),
        is_refusal(results[at]),
    ensures
        assembled(results) is Err,
    decreases results.len(),
{
    if at < results.len() - 1 {
        assert(results.drop_last()[at] == results[at]);
        lemma_refusal_is_an_error(results.drop_last(), at);
    }
}

/// Where the compiler refuses no layer, the work ends well, whatever layers
/// were passed over; and where no layer was passed over either, the output
/// has one entry for each layer, in the layers' order: `None` for a layer
/// that was kept, and the compiler's artifact for a layer that it compiled.
pub proof fn lemma_accepted_layers(results: Seq<LayerResult>)
    requires
        forall|i: int| 0 <= i < results.len() ==> !is_refusal(#[trigger] results[i]),
    ensures
        assembled(results) is Ok,
        assembled(results)->Ok_0.len() <= results.len(),
        (forall|i: int| 0 <= i < results.len() ==> !((#[trigger] results[i]) is Skipped)) ==> {
            &&& assembled(results)->Ok_0.len() == results.len()
            &&& forall|i: int|
                0 <= i < results.len() ==> (#[trigger] assembled(results)->Ok_0[i]) == match results[i] {
                    LayerResult::Compiled(Ok(artifact)) => Some(artifact),
                    _ => None::<Vec<u8>>,
                }
        },
    decreases results.len(),
{
    if results.len() > 0 {
        let init = results.drop_last();
        assert forall|i: int| 0 <= i < init.len() implies !is_refusal(#[trigger] init[i]) by {
            assert(init[i] == results[i]);
        }
        lemma_accepted_layers(init);
        assert(!is_refusal(results[results.len() - 1]));
        if forall|i: int| 0 <= i < results.len() ==> !((#[trigger] results[i]) is Skipped) {
            assert forall|i: int| 0 <= i < init.len() implies !((#[trigger] init[i]) is Skipped) by {
                assert(init[i] == results[i]);
            }
            assert(!(results[results.len() - 1] is Skipped));
            let out = assembled(results)->Ok_0;
            assert forall|i: int| 0 <= i < results.len() implies (#[trigger] out[i])
                == match results[i] {
                LayerResult::Compiled(Ok(artifact)) => Some(artifact),
                _ => None::<Vec<u8>>,
            } by {
                if i < init.len() {
                    assert(init[i] == results[i]);
                    assert(out[i] == assembled(init)->Ok_0[i]);
                }
            }
        }
    }
}

/// What the probe calls compiled is no source: its kind decides the shape,
/// and it is kept as it is when layers are compiled.
pub proof fn lemma_probed_artifact(bytes: Seq<u8>, kind: Precompiled)
    requires
        probe_admits(bytes, Some(kind)),
    ensures
        classification(bytes, Some(kind)) == match kind {
            Precompiled::Module => ClassifiedBinary::PrecompiledModule,
            Precompiled::Component => ClassifiedBinary::PrecompiledComponent,
        },
        layer_plan(bytes, Some(kind)) == LayerPlan::Keep,
{
    lemma_elf_is_no_source(bytes);
}

/// The byte strings that `layers` holds.
pub open spec fn layer_bytes(layers: Seq<Vec<u8>>) -> Seq<Seq<u8>> {
    layers.map_values(|layer: Vec<u8>| layer@)
}

/// The engine that executes payloads: the compiler handle, and the signal
/// that asks everything running on it to wind down.
pub struct WasmtimeEngine<T: WasiConfig> {
    engine: wasmtime::Engine,
    cancel: tokio_util::sync::CancellationToken,
    config_type: PhantomData<T>,
}

impl<T: WasiConfig> Clone for WasmtimeEngine<T> {
    /// Another handle on the same compiler and the same cancellation signal.
    fn clone(&self) -> Self {
        WasmtimeEngine {
            engine: share_engine(&self.engine),
            cancel: share_token(&self.cancel),
            config_type: PhantomData,
        }
    }
}

impl<T: WasiConfig> WasmtimeEngine<T> {
    /// The name under which the runtime knows this engine.
    pub fn name() -> (name: &'static str)
        ensures
            name@ == "wasmtime"@,
    {
        "wasmtime"
    }

    /// Builds the engine from `T`'s configuration, with asynchronous
    /// execution switched on, and a cancellation signal of its own.
    pub fn new() -> Result<Self, anyhow::Error> {
        let mut config = T::new_config();
        enable_async(&mut config);
        match wasmtime::Engine::new(&config) {
            Ok(engine) => Ok(
                WasmtimeEngine {
                    engine,
                    cancel: tokio_util::sync::CancellationToken::new(),
                    config_type: PhantomData,
                },
            ),
            Err(e) => Err(e),
        }
    }

    /// The compiler that this engine works with.
    pub closed spec fn compiler(&self) -> wasmtime::Engine {
        self.engine
    }

    /// The cancellation signal that this engine triggers and hands out.
    pub closed spec fn signal(&self) -> tokio_util::sync::CancellationToken {
        self.cancel
    }

    /// A handle on the compiler, for the code that instantiates and runs:
    /// the engine's own compiler, not another one.
    pub fn engine(&self) -> (handle: wasmtime::Engine)
        ensures
            handle == self.compiler(),
    {
        share_engine(&self.engine)
    }

    /// A handle on the cancellation signal, for whoever has to observe it:
    /// the signal that this engine triggers, not another one.
    pub fn cancellation(&self) -> (handle: tokio_util::sync::CancellationToken)
        ensures
            handle == self.signal(),
    {
        share_token(&self.cancel)
    }

    /// Asks everything that observes the cancellation signal to wind down.
    pub fn cancel(&self) {
        self.cancel.cancel();
    }

    /// Takes a notice for the shutdown in state `state`, and triggers the
    /// cancellation signal where the coordinator asks for it. Returns the
    /// coordinator's next state, and the exit code where the process is
    /// forced out.
    pub fn on_notice(&self, state: Shutdown, notice: Notice) -> (next: (Shutdown, Option<i32>))
        ensures
            next.0 == state.on_notice(notice).0,
            next.1 == match state.on_notice(notice).1 {
                ShutdownAction::Cancel => None::<i32>,
                ShutdownAction::Exit(code) => Some(code),
            },
    {
        let (next, action) = state.on_notice(notice);
        match action {
            ShutdownAction::Cancel => {
                self.cancel.cancel();
                (next, None)
            },
            ShutdownAction::Exit(code) => (next, Some(code)),
        }
    }

    /// Resolves the target of `component` from its export list: the first
    /// export in the list's order that marks an interface decides, and
    /// without one the target is the function `func`.
    pub fn target<'a>(&self, component: &wasmtime::component::Component, func: &'a str) -> (target:
        ComponentTarget<'a>)
        ensures
            target == resolution(exported_names(*component), func),
            target == ComponentTarget::HttpProxy::<'a> || target == ComponentTarget::Command::<'a>
                || target == ComponentTarget::Core(func),
    {
        let exports = component_exports(&self.engine, component);
        proof {
            lemma_resolution_is_one_of_three(export_names(exports@), func);
        }
        ComponentTarget::new(exports.as_slice(), func)
    }

    /// Asks the engine whether `bytes` are an artifact that it compiled
    /// earlier, and of which kind. It says so only of bytes that begin as an
    /// object file does.
    pub fn probe(&self, bytes: &[u8]) -> (probe: Option<Precompiled>)
        ensures
            probe_admits(bytes@, probe),
    {
        detect_precompiled(&self.engine, bytes)
    }

    /// Classifies `bytes`: by the source header first, by the engine's probe
    /// second. A source is classified by its header, whatever the probe
    /// says; bytes that do not begin as an object file does are classified
    /// without the probe; and what is classified as compiled is no source
    /// and begins as an object file does.
    pub fn classify(&self, bytes: &[u8]) -> (shape: ClassifiedBinary)
        ensures
            exists|probe: Option<Precompiled>|
                probe_admits(bytes@, probe) && shape == #[trigger] classification(bytes@, probe),
            source_kind(bytes@) is Some ==> shape == classification(bytes@, None),
            !starts_with(bytes@, elf_magic()) ==> shape == classification(bytes@, None),
            shape == ClassifiedBinary::PrecompiledModule || shape
                == ClassifiedBinary::PrecompiledComponent ==> source_kind(bytes@) is None
                && starts_with(bytes@, elf_magic()),
    {
        let probe = self.probe(bytes);
        proof {
            if probe is Some {
                lemma_elf_is_no_source(bytes@);
            }
        }
        classify_probed(bytes, probe)
    }

    /// The plan for one layer: see [`layer_plan`]. Bytes that do not begin
    /// as an object file does are planned by their header alone, and only
    /// bytes that do are kept as they are.
    pub fn plan(&self, bytes: &[u8]) -> (plan: LayerPlan)
        ensures
            exists|probe: Option<Precompiled>|
                probe_admits(bytes@, probe) && plan == #[trigger] layer_plan(bytes@, probe),
            !starts_with(bytes@, elf_magic()) ==> plan == layer_plan(bytes@, None),
            plan == LayerPlan::Keep ==> starts_with(bytes@, elf_magic()),
    {
        let probe = self.probe(bytes);
        plan_layer(bytes, probe)
    }

    /// Compiles `layers` ahead of time, in their order. Each layer has a
    /// result: it is kept where the probe calls it compiled, handed to the
    /// compiler where it is a module or a component, and passed over where it
    /// is neither. The outcome is what these results make: see [`assembled`].
    /// The work ends at the first layer that the compiler refuses, so on an
    /// error the later layers have no result.
    pub fn precompile(&self, layers: &[Vec<u8>]) -> (compiled: Result<
        Vec<Option<Vec<u8>>>,
        anyhow::Error,
    >)
        ensures
            exists|probes: Seq<Option<Precompiled>>, results: Seq<LayerResult>|
                #![trigger results_fit(layer_bytes(layers@), probes, results)]
                results_fit(layer_bytes(layers@), probes, results) && match compiled {
                    Ok(out) => results.len() == layers@.len() && assembled(results) == Ok::<
                        Seq<Option<Vec<u8>>>,
                        anyhow::Error,
                    >(out@),
                    Err(error) => assembled(results) == Err::<
                        Seq<Option<Vec<u8>>>,
                        anyhow::Error,
                    >(error),
                },
    {
        let mut out: Vec<Option<Vec<u8>>> = Vec::with_capacity(layers.len());
        let ghost all = layer_bytes(layers@);
        let ghost mut probes: Seq<Option<Precompiled>> = Seq::empty();
        let ghost mut results: Seq<LayerResult> = Seq::empty();
        let mut i: usize = 0;
        while i < layers.len()
            invariant
                i <= layers.len(),
                all == layer_bytes(layers@),
                results.len() == i,
                results_fit(all, probes, results),
                assembled(results) == Ok::<Seq<Option<Vec<u8>>>, anyhow::Error>(out@),
            decreases layers.len() - i,
        {
            let bytes = layers[i].as_slice();
            let probe = self.probe(bytes);
            let result = match plan_layer(bytes, probe) {
                LayerPlan::Keep => LayerResult::Kept,
                LayerPlan::CompileModule => LayerResult::Compiled(
                    self.engine.precompile_module(bytes),
                ),
                LayerPlan::CompileComponent => LayerResult::Compiled(
                    self.engine.precompile_component(bytes),
                ),
                LayerPlan::Skip => LayerResult::Skipped,
            };
            proof {
                let asked = probes;
                let known = results;
                probes = probes.push(probe);
                results = results.push(result);
                assert(all[i as int] == bytes@);
                assert(all.len() == layers@.len());
                assert(results.drop_last() == known);
                assert forall|k: int| 0 <= k < probes.len() implies probe_admits(
                    all[k],
                    #[trigger] probes[k],
                ) by {
                    if k < i {
                        assert(probes[k] == asked[k]);
                    }
                }
                assert forall|k: int| 0 <= k < results.len() implies result_fits(
                    layer_plan(all[k], probes[k]),
                    #[trigger] results[k],
                ) by {
                    if k < i {
                        assert(results[k] == known[k]);
                        assert(probes[k] == asked[k]);
                    }
                }
            }
            let ghost taken = result;
            let ghost before = out@;
            match add_layer(&mut out, result) {
                Ok(()) => {},
                Err(error) => {
                    proof {
                        assert(results.last() == taken);
                        assert(assembled(results.drop_last()) == Ok::<
                            Seq<Option<Vec<u8>>>,
                            anyhow::Error,
                        >(before));
                        assert(results_fit(all, probes, results));
                    }
                    return Err(error);
                },
            }
            i += 1;
        }
        Ok(out)
    }

    /// The key under which compiled artifacts of this engine may be cached:
    /// the decimal text of the engine's compatibility number.
    pub fn can_precompile(&self) -> (key: Option<String>)
        ensures
            key is Some,
            key->0@ == decimal_text(compatibility_number(self.compiler()) as nat),
    {
        let hash = compatibility_hash(&self.engine);
        Some(compatibility_key(hash))
    }
}

/// The cache key for a compatibility hash: its decimal text.
pub fn compatibility_key(hash: u64) -> (key: String)
    ensures
        key@ == decimal_text(hash as nat),
{
    decimal(hash)
}

} // verus!
