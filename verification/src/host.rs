//! The engine host: the lifecycle of the one engine instance and its registry of modules.
//!
//! The host decides; it does not run the engine. Evaluating a module's source, calling a
//! function and pumping the engine's task queue are done by the caller, which reports
//! what it found and is told what to do next.

use vstd::prelude::*;
use vstd::string::*;
use crate::marshal::{call_arguments, call_arguments_of, values_view, EngineValue};
use crate::paths::same_chars;
use crate::text::chars_of;

verus! {

/// The lifecycle of the engine instance.
#[derive(Debug, Clone, Copy, PartialEq, Eq, Structural)]
pub enum Lifecycle {
    Uninitialized,
    Initialized,
    /// Terminal: a disposed host is never initialized again.
    Disposed,
}

/// A function that a module exposes, and whether the engine can call it.
#[derive(Debug, Clone, PartialEq, Eq)]
pub struct ExportedEntry {
    pub name: String,
    pub callable: bool,
}

/// What the default export of an evaluated module looks like.
#[derive(Debug, Clone, PartialEq, Eq)]
pub struct ModuleExports {
    /// Whether the module has a default export that is an object.
    pub has_default_object: bool,
    /// Whether the default export's `init` is a function.
    pub init_callable: bool,
    /// The own properties of the default export's `functions`, if that is an object.
    pub functions: Option<Vec<ExportedEntry>>,
}

/// How a module breaks the contract of a registrable module.
#[derive(Debug, Clone, Copy, PartialEq, Eq, Structural)]
pub enum ContractFault {
    /// The module has no default export that is an object.
    NoDefaultObject,
    /// The default export has no `init` function.
    InitNotCallable,
    /// The default export has no `functions` object.
    FunctionsMissing,
}

/// What an invocation did not find.
#[derive(Debug, Clone, PartialEq, Eq)]
pub enum Missing {
    /// No module of this name is registered.
    Module(String),
    /// The module is registered, but exposes no callable function of this name.
    Function(String),
}

/// The mathematical content of a [`Missing`].
pub enum MissingView {
    Module(Seq<char>),
    Function(Seq<char>),
}

/// Why the host refused a request.
#[derive(Debug, Clone, PartialEq, Eq)]
pub enum HostError {
    /// The handshake with the host's native interface failed. Fatal for `init`.
    HandshakeVersionMismatch,
    /// The engine has not been initialized.
    NotInitialized,
    /// The engine has been disposed.
    Disposed,
    /// The module does not expose what a registrable module must.
    ModuleContract(ContractFault),
    /// The module or the function is not in the registry.
    FunctionNotFound(Missing),
}

/// The mathematical content of a [`HostError`].
pub enum HostErrorView {
    HandshakeVersionMismatch,
    NotInitialized,
    Disposed,
    ModuleContract(ContractFault),
    FunctionNotFound(MissingView),
}

impl View for HostError {
    type V = HostErrorView;

    open spec fn view(&self) -> HostErrorView {
        match self {
            HostError::HandshakeVersionMismatch => HostErrorView::HandshakeVersionMismatch,
            HostError::NotInitialized => HostErrorView::NotInitialized,
            HostError::Disposed => HostErrorView::Disposed,
            HostError::ModuleContract(fault) => HostErrorView::ModuleContract(*fault),
            HostError::FunctionNotFound(Missing::Module(name)) => HostErrorView::FunctionNotFound(
                MissingView::Module(name@),
            ),
            HostError::FunctionNotFound(Missing::Function(name)) => HostErrorView::FunctionNotFound(
                MissingView::Function(name@),
            ),
        }
    }
}

impl HostErrorView {
    /// The text that describes the error.
    pub open spec fn message(self) -> Seq<char> {
        match self {
            HostErrorView::HandshakeVersionMismatch =>
                "Failed to initialize Dart DL C API: Version mismatch. Ensure that include/ matches Dart SDK version."@,
            HostErrorView::NotInitialized =>
                "Error: JS Runtime has not been initialized! Call `init_runtime()` first."@,
            HostErrorView::Disposed => "Error: JS Runtime has been disposed."@,
            HostErrorView::ModuleContract(ContractFault::NoDefaultObject) =>
                "Module does not export a default function"@,
            HostErrorView::ModuleContract(ContractFault::InitNotCallable) =>
                "Module does not export an 'init' function"@,
            HostErrorView::ModuleContract(ContractFault::FunctionsMissing) =>
                "Module does not export a 'functions' object"@,
            HostErrorView::FunctionNotFound(MissingView::Module(name)) => "Error: Module '"@
                + name + "' not registered in runtime."@,
            HostErrorView::FunctionNotFound(MissingView::Function(name)) => "Error: Function '"@
                + name + "' not found"@,
        }
    }
}

impl HostError {
    /// Describes the error in words.
    pub fn message(&self) -> (text: String)
        ensures
            text@ == self@.message(),
    {
        match self {
            HostError::HandshakeVersionMismatch => String::from_str(
                "Failed to initialize Dart DL C API: Version mismatch. Ensure that include/ matches Dart SDK version.",
            ),
            HostError::NotInitialized => String::from_str(
                "Error: JS Runtime has not been initialized! Call `init_runtime()` first.",
            ),
            HostError::Disposed => String::from_str("Error: JS Runtime has been disposed."),
            HostError::ModuleContract(ContractFault::NoDefaultObject) => String::from_str(
                "Module does not export a default function",
            ),
            HostError::ModuleContract(ContractFault::InitNotCallable) => String::from_str(
                "Module does not export an 'init' function",
            ),
            HostError::ModuleContract(ContractFault::FunctionsMissing) => String::from_str(
                "Module does not export a 'functions' object",
            ),
            HostError::FunctionNotFound(Missing::Module(name)) => String::from_str(
                "Error: Module '",
            ).concat(name.as_str()).concat("' not registered in runtime."),
            HostError::FunctionNotFound(Missing::Function(name)) => String::from_str(
                "Error: Function '",
            ).concat(name.as_str()).concat("' not found"),
        }
    }
}

/// The status code that a native entry point returns: zero for success, one for failure.
pub open spec fn status_of(failed: bool) -> u8 {
    if failed {
        1
    } else {
        0
    }
}

/// The status code for the outcome of a request.
pub fn status_code<T>(outcome: &Result<T, HostError>) -> (code: u8)
    ensures
        code == status_of(outcome is Err),
{
    match outcome {
        Ok(_) => 0,
        Err(_) => 1,
    }
}

impl ModuleExports {
    /// Whether the module exposes a callable function of the given name.
    pub open spec fn exposes(&self, name: Seq<char>) -> bool {
        match self.functions {
            Some(entries) => callable_among(entries@, entries@.len() as int, name),
            None => false,
        }
    }

    /// The first way, if any, in which the module breaks the contract of a registrable
    /// module: the default export is looked at first, then `init`, then `functions`.
    pub open spec fn fault(&self) -> Option<ContractFault> {
        if !self.has_default_object {
            Some(ContractFault::NoDefaultObject)
        } else if !self.init_callable {
            Some(ContractFault::InitNotCallable)
        } else if self.functions is None {
            Some(ContractFault::FunctionsMissing)
        } else {
            None
        }
    }

    /// Checks that the module exposes a default object with an `init` function and a
    /// `functions` object.
    pub fn check(&self) -> (outcome: Result<(), ContractFault>)
        ensures
            match outcome {
                Ok(_) => self.fault() is None,
                Err(fault) => self.fault() == Some(fault),
            },
    {
        if !self.has_default_object {
            Err(ContractFault::NoDefaultObject)
        } else if !self.init_callable {
            Err(ContractFault::InitNotCallable)
        } else if self.functions.is_none() {
            Err(ContractFault::FunctionsMissing)
        } else {
            Ok(())
        }
    }
}

/// A registered module.
#[derive(Debug, Clone, PartialEq, Eq)]
pub struct Module {
    /// The name under which the module is registered.
    pub name: String,
    /// The handle of the state that the module's `init` produced.
    pub state: u64,
    /// The names of the module's callable functions.
    pub functions: Vec<String>,
}

/// Whether a list of names holds the given name.
pub open spec fn listed(names: Seq<String>, name: Seq<char>) -> bool {
    exists|i: int| 0 <= i < names.len() && names[i]@ == name
}

/// Whether one of the first `n` entries is callable and has the given name.
pub open spec fn callable_among(entries: Seq<ExportedEntry>, n: int, name: Seq<char>) -> bool {
    exists|i: int| 0 <= i < n && entries[i].name@ == name && entries[i].callable
}

impl Module {
    /// Whether the module has a callable function of the given name.
    pub open spec fn has_function(&self, name: Seq<char>) -> bool {
        listed(self.functions@, name)
    }

    /// Whether the module has a callable function of the given name.
    pub fn exposes_function(&self, name: &Vec<char>) -> (found: bool)
        ensures
            found == self.has_function(name@),
    {
        let mut i: usize = 0;
        while i < self.functions.len()
            invariant
                i <= self.functions.len(),
                forall|j: int| 0 <= j < i ==> self.functions@[j]@ != name@,
            decreases self.functions.len() - i,
        {
            let candidate = chars_of(self.functions[i].as_str());
            if same_chars(&candidate, name) {
                return true;
            }
            i += 1;
        }
        false
    }
}

/// The index of the first module named `name` at or after `from`, or the number of
/// modules if there is none.
pub open spec fn module_index(modules: Seq<Module>, name: Seq<char>, from: int) -> int
    decreases modules.len() - from,
{
    if from < 0 || from >= modules.len() {
        modules.len() as int
    } else if modules[from].name@ == name {
        from
    } else {
        module_index(modules, name, from + 1)
    }
}

/// The index that [`module_index`] gives lies between `from` and the number of modules;
/// it is the index of a module named `name` unless it is the number of modules, and no
/// module between `from` and it is named `name`.
pub proof fn lemma_module_index(modules: Seq<Module>, name: Seq<char>, from: int)
    requires
        0 <= from <= modules.len(),
    ensures
        from <= module_index(modules, name, from) <= modules.len(),
        module_index(modules, name, from) < modules.len() ==> modules[module_index(
            modules,
            name,
            from,
        )].name@ == name,
        forall|i: int| from <= i < module_index(modules, name, from) ==> modules[i].name@ != name,
    decreases modules.len() - from,
{
    if from < modules.len() && modules[from].name@ != name {
        lemma_module_index(modules, name, from + 1);
    }
}

/// Where the first module named `name` at or after `from` is at `at`, [`module_index`]
/// gives `at`.
pub proof fn lemma_module_index_is(modules: Seq<Module>, name: Seq<char>, from: int, at: int)
    requires
        0 <= from <= at <= modules.len(),
        at < modules.len() ==> modules[at].name@ == name,
        forall|i: int| from <= i < at ==> modules[i].name@ != name,
    ensures
        module_index(modules, name, from) == at,
    decreases at - from,
{
    if from < at {
        lemma_module_index_is(modules, name, from + 1, at);
    }
}

/// The plan of a call: which function to call, and with which arguments.
#[derive(Debug, Clone, PartialEq, Eq)]
pub struct CallPlan {
    /// The name of the module.
    pub module: String,
    /// The name of the function within the module.
    pub function: String,
    /// The arguments in order: the module's state, the call's own arguments, the
    /// correlation identifier.
    pub arguments: Vec<EngineValue>,
}

/// The call of a module's `init` function that a registration begins with.
#[derive(Debug, Clone, PartialEq, Eq)]
pub struct InitCall {
    /// The arguments of the call: the registration arguments as they were marshaled.
    pub arguments: Vec<EngineValue>,
    /// The names of the module's callable functions.
    pub functions: Vec<String>,
}

/// What `dispose` found.
#[derive(Debug, Clone, Copy, PartialEq, Eq, Structural)]
pub enum DisposeOutcome {
    /// A live engine instance and its registry were dropped.
    Dropped,
    /// There was no live engine instance: nothing was done.
    NothingToDrop,
}

/// The host of the one engine instance of a session.
#[derive(Debug, Clone, PartialEq, Eq)]
pub struct EngineHost {
    lifecycle: Lifecycle,
    modules: Vec<Module>,
    port: i64,
}

impl EngineHost {
    /// The lifecycle state.
    pub closed spec fn lifecycle(&self) -> Lifecycle {
        self.lifecycle
    }

    /// The registered modules, in the order of their first registration.
    pub closed spec fn modules(&self) -> Seq<Module> {
        self.modules@
    }

    /// The handle of the host's native message port.
    pub closed spec fn port(&self) -> i64 {
        self.port
    }

    /// The invariant of the host: only an initialized host has modules.
    pub open spec fn wf(&self) -> bool {
        self.lifecycle() != Lifecycle::Initialized ==> self.modules().len() == 0
    }

    /// Whether a module of the given name is registered.
    pub open spec fn is_registered(&self, name: Seq<char>) -> bool {
        module_index(self.modules(), name, 0) < self.modules().len()
    }

    /// The module registered under the given name. Meaningful where one is registered.
    pub open spec fn module_named(&self, name: Seq<char>) -> Module
        recommends
            self.is_registered(name),
    {
        self.modules()[module_index(self.modules(), name, 0)]
    }

    /// A host whose engine has not been initialized.
    pub fn new() -> (host: EngineHost)
        ensures
            host.wf(),
            host.lifecycle() == Lifecycle::Uninitialized,
            host.modules().len() == 0,
            host.port() == 0,
    {
        EngineHost { lifecycle: Lifecycle::Uninitialized, modules: Vec::new(), port: 0 }
    }

    /// The lifecycle state.
    pub fn state(&self) -> (lifecycle: Lifecycle)
        ensures
            lifecycle == self.lifecycle(),
    {
        self.lifecycle
    }

    /// The handle of the host's native message port.
    pub fn send_port(&self) -> (port: i64)
        ensures
            port == self.port(),
    {
        self.port
    }

    /// The number of registered modules.
    pub fn module_count(&self) -> (count: usize)
        ensures
            count == self.modules().len(),
    {
        self.modules.len()
    }

    /// Initializes the engine instance.
    ///
    /// `handshake` is what the handshake with the host's native interface returned; any
    /// value but zero is a version mismatch, which leaves the host as it was. A disposed
    /// host stays disposed. Otherwise the host holds a fresh engine instance with an empty
    /// registry and the given port, also where it was initialized before.
    pub fn init_runtime(&mut self, handshake: i64, port: i64) -> (outcome: Result<(), HostError>)
        requires
            old(self).wf(),
        ensures
            final(self).wf(),
            handshake != 0 ==> {
                &&& outcome == Err::<(), HostError>(HostError::HandshakeVersionMismatch)
                &&& *final(self) == *old(self)
            },
            handshake == 0 && old(self).lifecycle() == Lifecycle::Disposed ==> {
                &&& outcome == Err::<(), HostError>(HostError::Disposed)
                &&& *final(self) == *old(self)
            },
            handshake == 0 && old(self).lifecycle() != Lifecycle::Disposed ==> {
                &&& outcome is Ok
                &&& final(self).lifecycle() == Lifecycle::Initialized
                &&& final(self).modules().len() == 0
                &&& final(self).port() == port
            },
    {
        if handshake != 0 {
            return Err(HostError::HandshakeVersionMismatch);
        }
        match self.lifecycle {
            Lifecycle::Disposed => Err(HostError::Disposed),
            _ => {
                self.lifecycle = Lifecycle::Initialized;
                self.modules = Vec::new();
                self.port = port;
                Ok(())
            },
        }
    }

    /// Whether a module of the given name is registered.
    pub fn is_module_registered(&self, name: &str) -> (registered: bool)
        ensures
            registered == self.is_registered(name@),
            self.wf() && self.lifecycle() != Lifecycle::Initialized ==> !registered,
    {
        self.find_module(&chars_of(name)).is_some()
    }

    /// The index of the module of the given name, if one is registered.
    fn find_module(&self, name: &Vec<char>) -> (found: Option<usize>)
        ensures
            match found {
                Some(at) => at < self.modules().len() && at == module_index(
                    self.modules(),
                    name@,
                    0,
                ),
                None => module_index(self.modules(), name@, 0) == self.modules().len(),
            },
    {
        let mut i: usize = 0;
        while i < self.modules.len()
            invariant
                i <= self.modules.len(),
                module_index(self.modules@, name@, 0) == module_index(
                    self.modules@,
                    name@,
                    i as int,
                ),
            decreases self.modules.len() - i,
        {
            let candidate = chars_of(self.modules[i].name.as_str());
            if same_chars(&candidate, name) {
                return Some(i);
            }
            i += 1;
        }
        None
    }

    /// Says whether the engine is live: requests that need the engine are refused before
    /// it is initialized and after it is disposed.
    pub fn ready(&self) -> (outcome: Result<(), HostError>)
        ensures
            match outcome {
                Ok(_) => self.lifecycle() == Lifecycle::Initialized,
                Err(error) => match self.lifecycle() {
                    Lifecycle::Uninitialized => error@ == HostErrorView::NotInitialized,
                    Lifecycle::Disposed => error@ == HostErrorView::Disposed,
                    Lifecycle::Initialized => false,
                },
            },
    {
        match self.lifecycle {
            Lifecycle::Uninitialized => Err(HostError::NotInitialized),
            Lifecycle::Disposed => Err(HostError::Disposed),
            Lifecycle::Initialized => Ok(()),
        }
    }

    /// Why a registration is refused, if it is: a host that is not initialized refuses
    /// every registration; an initialized host refuses a module that breaks the contract.
    pub open spec fn refusal(&self, exports: &ModuleExports) -> Option<HostErrorView> {
        match self.lifecycle() {
            Lifecycle::Uninitialized => Some(HostErrorView::NotInitialized),
            Lifecycle::Disposed => Some(HostErrorView::Disposed),
            Lifecycle::Initialized => match exports.fault() {
                Some(fault) => Some(HostErrorView::ModuleContract(fault)),
                None => None,
            },
        }
    }

    /// Begins a registration: says with which arguments the module's `init` is called,
    /// once, to produce the module's state. These are the registration arguments as they
    /// were marshaled, in their order, with nothing put before or behind them. A
    /// registration that would be refused begins with no call.
    pub fn prepare_registration(&self, exports: &ModuleExports, arguments: Vec<EngineValue>) -> (outcome:
        Result<InitCall, HostError>)
        ensures
            match outcome {
                Err(error) => self.refusal(exports) == Some(error@),
                Ok(call) => {
                    &&& self.refusal(exports) is None
                    &&& values_view(call.arguments@) == values_view(arguments@)
                    &&& forall|function: Seq<char>|
                        listed(call.functions@, function) <==> exports.exposes(function)
                },
            },
    {
        match self.ready() {
            Err(refusal) => {
                return Err(refusal);
            },
            Ok(_) => {},
        }
        match exports.check() {
            Err(fault) => Err(HostError::ModuleContract(fault)),
            Ok(_) => Ok(InitCall { arguments, functions: callable_names(exports) }),
        }
    }

    /// Stores a module under `name`, with the handle of its state and the names of its
    /// callable functions. A module stored under the same name before is replaced. Gives
    /// the status zero; on a host that is not initialized nothing is stored and the status
    /// is one.
    pub fn register_js_module(&mut self, name: &str, functions: Vec<String>, state: u64) -> (status:
        u8)
        requires
            old(self).wf(),
        ensures
            final(self).wf(),
            final(self).lifecycle() == old(self).lifecycle(),
            final(self).port() == old(self).port(),
            status == status_of(old(self).lifecycle() != Lifecycle::Initialized),
            status != 0 ==> *final(self) == *old(self),
            status == 0 ==> {
                &&& final(self).is_registered(name@)
                &&& final(self).module_named(name@).name@ == name@
                &&& final(self).module_named(name@).state == state
                &&& final(self).module_named(name@).functions == functions
                &&& forall|other: Seq<char>|
                    other != name@ ==> {
                        &&& final(self).is_registered(other) == old(self).is_registered(other)
                        &&& old(self).is_registered(other) ==> final(self).module_named(other)
                            == old(self).module_named(other)
                    }
                &&& final(self).modules().len() == old(self).modules().len() + (if old(
                    self,
                ).is_registered(name@) {
                    0int
                } else {
                    1int
                })
            },
    {
        match self.lifecycle {
            Lifecycle::Initialized => {},
            _ => {
                return 1;
            },
        }
        let module = Module { name: name.to_owned(), state, functions };
        let ghost before = self.modules@;
        let found = self.find_module(&chars_of(name));
        match found {
            Some(at) => {
                self.modules.set(at, module);
            },
            None => {
                self.modules.push(module);
            },
        }
        proof {
            let after = self.modules@;
            let at: int = match found {
                Some(at) => at as int,
                None => before.len() as int,
            };
            lemma_module_index(before, name@, 0);
            lemma_module_index_is(after, name@, 0, at);
            assert(self.module_named(name@) == module);
            assert forall|other: Seq<char>| other != name@ implies {
                &&& self.is_registered(other) == old(self).is_registered(other)
                &&& old(self).is_registered(other) ==> self.module_named(other) == old(
                    self,
                ).module_named(other)
            } by {
                lemma_module_index(before, other, 0);
                let was = module_index(before, other, 0);
                if was < before.len() {
                    lemma_module_index_is(after, other, 0, was);
                } else {
                    lemma_module_index_is(after, other, 0, after.len() as int);
                }
            }
        }
        0
    }

    /// Registers an evaluated module under `name`, with the handle of the state that its
    /// `init` produced. The module must expose a default object with an `init` function
    /// and a `functions` object; of the latter's entries the callable ones become the
    /// module's functions. A module registered under the same name before is replaced. A
    /// refused registration leaves the host as it was.
    pub fn register_module(&mut self, name: &str, exports: &ModuleExports, state: u64) -> (outcome:
        Result<(), HostError>)
        requires
            old(self).wf(),
        ensures
            final(self).wf(),
            final(self).lifecycle() == old(self).lifecycle(),
            final(self).port() == old(self).port(),
            match outcome {
                Err(error) => {
                    &&& old(self).refusal(exports) == Some(error@)
                    &&& *final(self) == *old(self)
                },
                Ok(_) => {
                    &&& old(self).refusal(exports) is None
                    &&& final(self).is_registered(name@)
                    &&& final(self).module_named(name@).name@ == name@
                    &&& final(self).module_named(name@).state == state
                    &&& forall|function: Seq<char>|
                        final(self).module_named(name@).has_function(function)
                            <==> exports.exposes(function)
                    &&& forall|other: Seq<char>|
                        other != name@ ==> {
                            &&& final(self).is_registered(other) == old(self).is_registered(other)
                            &&& old(self).is_registered(other) ==> final(self).module_named(other)
                                == old(self).module_named(other)
                        }
                    &&& final(self).modules().len() == old(self).modules().len() + (if old(
                        self,
                    ).is_registered(name@) {
                        0int
                    } else {
                        1int
                    })
                },
            },
    {
        match self.ready() {
            Err(refusal) => {
                return Err(refusal);
            },
            Ok(_) => {},
        }
        match exports.check() {
            Err(fault) => {
                return Err(HostError::ModuleContract(fault));
            },
            Ok(_) => {},
        }
        let functions = callable_names(exports);
        let status = self.register_js_module(name, functions, state);
        assert(status == 0);
        Ok(())
    }

    /// Looks up the module registered under `name`.
    pub fn get_js_module(&self, name: &str) -> (outcome: Result<&Module, HostError>)
        ensures
            match outcome {
                Ok(module) => self.is_registered(name@) && *module == self.module_named(name@),
                Err(error) => !self.is_registered(name@) && error@
                    == HostErrorView::FunctionNotFound(MissingView::Module(name@)),
            },
    {
        match self.find_module(&chars_of(name)) {
            Some(at) => Ok(&self.modules[at]),
            None => Err(HostError::FunctionNotFound(Missing::Module(name.to_owned()))),
        }
    }

    /// What looking up a function gives: the handle of the module's state where the
    /// module is registered and has a callable function of that name.
    pub open spec fn function_found(&self, module: Seq<char>, function: Seq<char>) -> Result<
        u64,
        HostErrorView,
    > {
        if !self.is_registered(module) {
            Err(HostErrorView::FunctionNotFound(MissingView::Module(module)))
        } else if !self.module_named(module).has_function(function) {
            Err(HostErrorView::FunctionNotFound(MissingView::Function(function)))
        } else {
            Ok(self.module_named(module).state)
        }
    }

    /// Looks up a function of a registered module by the exact names of both, and gives
    /// the function's name with the handle of the module's state.
    pub fn get_js_function(&self, module: &str, function: &str) -> (outcome: Result<
        (String, u64),
        HostError,
    >)
        ensures
            match outcome {
                Ok(found) => found.0@ == function@ && self.function_found(module@, function@)
                    == Ok::<u64, HostErrorView>(found.1),
                Err(error) => self.function_found(module@, function@) == Err::<
                    u64,
                    HostErrorView,
                >(error@),
            },
    {
        match self.get_js_module(module) {
            Err(error) => Err(error),
            Ok(found) => {
                if found.exposes_function(&chars_of(function)) {
                    Ok((function.to_owned(), found.state))
                } else {
                    Err(HostError::FunctionNotFound(Missing::Function(function.to_owned())))
                }
            },
        }
    }

    /// Plans the call of a function of a registered module: looks the module and the
    /// function up by their exact names and composes the arguments, with the module's
    /// state in front and the correlation identifier behind. Nothing is found on a host
    /// that is not initialized, since its registry is empty.
    pub fn call_js_function(
        &self,
        module: &str,
        function: &str,
        correlation_id: i32,
        arguments: Vec<EngineValue>,
    ) -> (outcome: Result<CallPlan, HostError>)
        ensures
            match outcome {
                Ok(plan) => {
                    &&& self.function_found(module@, function@) == Ok::<u64, HostErrorView>(
                        self.module_named(module@).state,
                    )
                    &&& plan.module@ == module@
                    &&& plan.function@ == function@
                    &&& values_view(plan.arguments@) == call_arguments_of(
                        self.module_named(module@).state,
                        values_view(arguments@),
                        correlation_id,
                    )
                },
                Err(error) => self.function_found(module@, function@) == Err::<
                    u64,
                    HostErrorView,
                >(error@),
            },
            self.wf() && self.lifecycle() != Lifecycle::Initialized ==> outcome is Err,
    {
        match self.get_js_function(module, function) {
            Err(error) => Err(error),
            Ok(found) => Ok(
                CallPlan {
                    module: module.to_owned(),
                    function: found.0,
                    arguments: call_arguments(found.1, arguments, correlation_id),
                },
            ),
        }
    }

    /// Disposes the engine instance and drops the registry. The host is disposed
    /// afterwards, whatever it was before; disposing a disposed host changes nothing.
    pub fn dispose_runtime(&mut self) -> (outcome: DisposeOutcome)
        requires
            old(self).wf(),
        ensures
            final(self).wf(),
            final(self).lifecycle() == Lifecycle::Disposed,
            final(self).modules().len() == 0,
            final(self).port() == old(self).port(),
            outcome == (if old(self).lifecycle() == Lifecycle::Initialized {
                DisposeOutcome::Dropped
            } else {
                DisposeOutcome::NothingToDrop
            }),
            old(self).lifecycle() == Lifecycle::Disposed ==> *final(self) == *old(self),
    {
        match self.lifecycle {
            Lifecycle::Initialized => {
                self.modules = Vec::new();
                self.lifecycle = Lifecycle::Disposed;
                DisposeOutcome::Dropped
            },
            Lifecycle::Uninitialized => {
                self.lifecycle = Lifecycle::Disposed;
                DisposeOutcome::NothingToDrop
            },
            Lifecycle::Disposed => DisposeOutcome::NothingToDrop,
        }
    }
}

/// The names of the callable functions that a module exposes, in the order of its
/// `functions` object.
pub fn callable_names(exports: &ModuleExports) -> (names: Vec<String>)
    ensures
        forall|name: Seq<char>| listed(names@, name) <==> exports.exposes(name),
{
    let mut names: Vec<String> = Vec::new();
    match &exports.functions {
        None => {},
        Some(entries) => {
            let mut i: usize = 0;
            while i < entries.len()
                invariant
                    i <= entries.len(),
                    forall|name: Seq<char>|
                        listed(names@, name) <==> callable_among(entries@, i as int, name),
                decreases entries.len() - i,
            {
                let ghost before = names@;
                if entries[i].callable {
                    names.push(entries[i].name.clone());
                }
                proof {
                    let after = names@;
                    assert forall|name: Seq<char>|
                        listed(after, name) <==> callable_among(entries@, i + 1, name) by {
                        if listed(after, name) {
                            let k = choose|k: int| 0 <= k < after.len() && after[k]@ == name;
                            if k < before.len() {
                                assert(before[k]@ == name);
                                assert(listed(before, name));
                                let j = choose|j: int|
                                    0 <= j < i && entries@[j].name@ == name && entries@[j].callable;
                                assert(0 <= j < i + 1 && entries@[j].name@ == name
                                    && entries@[j].callable);
                            } else {
                                assert(entries@[i as int].name@ == name
                                    && entries@[i as int].callable);
                            }
                        }
                        if callable_among(entries@, i + 1, name) {
                            let j = choose|j: int|
                                0 <= j < i + 1 && entries@[j].name@ == name && entries@[j].callable;
                            if j < i {
                                assert(callable_among(entries@, i as int, name));
                                assert(listed(before, name));
                                let k = choose|k: int| 0 <= k < before.len() && before[k]@ == name;
                                assert(after[k]@ == name);
                            } else {
                                assert(after[after.len() - 1]@ == name);
                            }
                        }
                    }
                }
                i += 1;
            }
        },
    }
    names
}

/// Registration comes before use: on a host whose registry is empty no name is
/// registered, so every call fails there for want of the module.
pub proof fn law_empty_registry_finds_nothing(host: EngineHost, module: Seq<char>, function: Seq<char>)
    requires
        host.modules().len() == 0,
    ensures
        !host.is_registered(module),
        host.function_found(module, function) == Err::<u64, HostErrorView>(
            HostErrorView::FunctionNotFound(MissingView::Module(module)),
        ),
{
}

/// A call finds its function exactly where the module is registered and has a callable
/// function of that name; otherwise it fails because the module or the function is not
/// found, and for no other reason.
pub proof fn law_call_fails_only_for_want_of_a_name(
    host: EngineHost,
    module: Seq<char>,
    function: Seq<char>,
)
    ensures
        host.function_found(module, function) is Ok <==> host.is_registered(module)
            && host.module_named(module).has_function(function),
        host.function_found(module, function) is Err ==> host.function_found(module, function)
            == Err::<u64, HostErrorView>(
            HostErrorView::FunctionNotFound(MissingView::Module(module)),
        ) || host.function_found(module, function) == Err::<u64, HostErrorView>(
            HostErrorView::FunctionNotFound(MissingView::Function(function)),
        ),
{
}

} // verus!
