use crate::models::game_action::GameAction;
use crate::utils::errors::GameLogicError;
use crate::utils::text::{
    contains, contains_text, find_char, first_index_of, has_at, lemma_first_index_is,
    occurs_at, same_text,
};
use mlua::{Function, Lua};
use vstd::prelude::*;
use vstd::string::{StrSliceExecFns, StringExecFns};

verus! {

/// The script runtime of `mlua`: one Lua virtual machine.
#[verifier::external_type_specification]
#[verifier::external_body]
pub struct ExLua(Lua);

/// A handle of `mlua` to a function that lives in a virtual machine.
#[verifier::external_type_specification]
#[verifier::external_body]
pub struct ExFunction(Function);

/// Calls `mlua::Lua::new`, which creates a virtual machine with the safe
/// subset of the standard libraries. Nothing is claimed of the result.
#[verifier::external_body]
fn new_lua() -> (lua: Lua) {
    Lua::new()
}

/// Calls `mlua::Lua::load` on `code` and `mlua::Chunk::exec` on the chunk,
/// which runs the code in the virtual machine, and tells whether it ran
/// without an error. What the code does to the machine is up to the code:
/// nothing is claimed of the result.
#[verifier::external_body]
fn exec_chunk(lua: &Lua, code: &str) -> (ran: bool) {
    lua.load(code).exec().is_ok()
}

/// Calls `mlua::Lua::globals` and `mlua::Table::get`, which looks `name` up
/// among the machine's globals, and hands back the function found there, if
/// the global is a function. What is found depends on the code that the
/// machine has run: nothing is claimed of the result.
#[verifier::external_body]
fn global_function(lua: &Lua, name: &str) -> (found: Option<Function>) {
    lua.globals().get::<Function>(name).ok()
}

/// The four namespaces that script functions are indexed in.
#[derive(Debug, Clone, Copy, PartialEq, Eq, Structural)]
pub enum Namespace {
    Core,
    Cards,
    Effects,
    Triggers,
}

/// A script function under the name it is registered with.
#[derive(Debug)]
pub struct Script {
    pub name: String,
    pub function: Function,
}

/// The script host: the virtual machine and, for each namespace, the
/// functions registered in it, each name once, in the order in which the
/// names were first registered.
#[derive(Debug)]
pub struct ScriptManager {
    pub lua: Lua,
    pub core: Vec<Script>,
    pub cards: Vec<Script>,
    pub effects: Vec<Script>,
    pub triggers: Vec<Script>,
}

/// What running a script function came to.
#[derive(Debug)]
pub enum ScriptOutcome {
    /// The call failed.
    NotCallable,
    /// The call returned something that is not a list of game actions.
    InvalidResult,
    /// The call returned these actions.
    Actions(Vec<GameAction>),
}

/// The namespace that the first part of a qualified name selects.
pub open spec fn namespace_named(name: Seq<char>) -> Option<Namespace> {
    if name == "cards"@ {
        Some(Namespace::Cards)
    } else if name == "core"@ {
        Some(Namespace::Core)
    } else if name == "effects"@ {
        Some(Namespace::Effects)
    } else if name == "triggers"@ {
        Some(Namespace::Triggers)
    } else {
        None
    }
}

/// The namespace that a manifest file fills, chosen by what its name
/// contains: `core` before `card` before `effect` before `trigger`.
pub open spec fn manifest_namespace(file_name: Seq<char>) -> Option<Namespace> {
    if contains_text(file_name, "core"@) {
        Some(Namespace::Core)
    } else if contains_text(file_name, "card"@) {
        Some(Namespace::Cards)
    } else if contains_text(file_name, "effect"@) {
        Some(Namespace::Effects)
    } else if contains_text(file_name, "trigger"@) {
        Some(Namespace::Triggers)
    } else {
        None
    }
}

/// Whether a file name has the extension `extension`: a non-empty stem, a
/// dot, and the extension at the very end.
pub open spec fn has_extension(file_name: Seq<char>, extension: Seq<char>) -> bool {
    &&& file_name.len() > extension.len() + 1
    &&& file_name[file_name.len() - extension.len() - 1] == '.'
    &&& occurs_at(file_name, extension, file_name.len() - extension.len())
}

/// Whether a directory of the script folder is one whose files are loaded.
pub open spec fn is_script_folder(name: Seq<char>) -> bool {
    name == "core"@ || name == "cards"@ || name == "effects"@ || name == "triggers"@
}

/// The two parts of a qualified name `<namespace>:<function>`, split at its
/// first colon; a name without a colon has none.
pub open spec fn split_qualified(action: Seq<char>) -> Option<(Seq<char>, Seq<char>)> {
    let colon = first_index_of(action, ':');
    if colon < action.len() {
        Some((action.subrange(0, colon), action.subrange(colon + 1, action.len() as int)))
    } else {
        None
    }
}

/// The names of a list of scripts, as character sequences.
pub open spec fn names_of(scripts: Seq<Script>) -> Seq<Seq<char>> {
    scripts.map_values(|s: Script| s.name@)
}

/// A list of scripts after `function` is registered under `name`: in the
/// place of the function that had the name, if there is one, at the end
/// otherwise.
pub open spec fn registered(scripts: Seq<Script>, name: String, function: Function) -> Seq<Script> {
    let at = first_index_of(names_of(scripts), name@);
    if at < scripts.len() {
        scripts.update(at, Script { name: scripts[at].name, function })
    } else {
        scripts.push(Script { name, function })
    }
}

/// Finds a script in a list by its name.
pub fn find_name(scripts: &Vec<Script>, name: &str) -> (found: Option<usize>)
    ensures
        match found {
            Some(i) => i < scripts@.len() && i == first_index_of(names_of(scripts@), name@),
            None => first_index_of(names_of(scripts@), name@) == scripts@.len(),
        },
{
    let mut i: usize = 0;
    while i < scripts.len()
        invariant
            0 <= i <= scripts@.len(),
            forall|j: int| 0 <= j < i ==> names_of(scripts@)[j] != name@,
        decreases scripts@.len() - i,
    {
        if same_text(scripts[i].name.as_str(), name) {
            proof {
                lemma_first_index_is(names_of(scripts@), name@, i as int);
            }
            return Some(i);
        }
        i = i + 1;
    }
    proof {
        lemma_first_index_is(names_of(scripts@), name@, i as int);
    }
    None
}

/// Tells whether a file name has the given extension.
pub fn file_has_extension(file_name: &str, extension: &str) -> (yes: bool)
    ensures
        yes == has_extension(file_name@, extension@),
{
    let n = file_name.unicode_len();
    let m = extension.unicode_len();
    if n <= m || n - m < 2 {
        return false;
    }
    file_name.get_char(n - m - 1) == '.' && has_at(file_name, extension, n - m)
}

/// Reads the namespace that a manifest file fills off its name.
pub fn namespace_of_manifest(file_name: &str) -> (namespace: Option<Namespace>)
    ensures
        namespace == manifest_namespace(file_name@),
{
    if contains(file_name, "core") {
        Some(Namespace::Core)
    } else if contains(file_name, "card") {
        Some(Namespace::Cards)
    } else if contains(file_name, "effect") {
        Some(Namespace::Effects)
    } else if contains(file_name, "trigger") {
        Some(Namespace::Triggers)
    } else {
        None
    }
}

impl ScriptManager {
    /// The scripts registered in a namespace.
    pub open spec fn scripts(self, namespace: Namespace) -> Seq<Script> {
        match namespace {
            Namespace::Core => self.core@,
            Namespace::Cards => self.cards@,
            Namespace::Effects => self.effects@,
            Namespace::Triggers => self.triggers@,
        }
    }

    /// The names registered in a namespace.
    pub open spec fn names(self, namespace: Namespace) -> Seq<Seq<char>> {
        names_of(self.scripts(namespace))
    }

    /// What a qualified name resolves to: the namespace that its first part
    /// names and the place of its second part among that namespace's
    /// functions; nothing for a name without a colon, with an unknown
    /// namespace or with a function that is not registered.
    pub open spec fn resolved(self, action: Seq<char>) -> Option<(Namespace, int)> {
        match split_qualified(action) {
            Some((space, key)) => match namespace_named(space) {
                Some(namespace) => {
                    let at = first_index_of(self.names(namespace), key);
                    if at < self.names(namespace).len() {
                        Some((namespace, at))
                    } else {
                        None
                    }
                },
                None => None,
            },
            None => None,
        }
    }

    /// A script host with nothing registered.
    pub fn new_vm() -> (manager: ScriptManager)
        ensures
            manager.core@.len() == 0,
            manager.cards@.len() == 0,
            manager.effects@.len() == 0,
            manager.triggers@.len() == 0,
    {
        ScriptManager {
            lua: new_lua(),
            core: Vec::new(),
            cards: Vec::new(),
            effects: Vec::new(),
            triggers: Vec::new(),
        }
    }

    /// Tells whether an entry of the script folder is a directory whose
    /// files are to be loaded: one named `core`, `cards`, `effects` or
    /// `triggers`.
    pub fn load_scripts(name: &str, is_dir: bool) -> (load: bool)
        ensures
            load == (is_dir && is_script_folder(name@)),
    {
        is_dir && (same_text(name, "core") || same_text(name, "cards") || same_text(
            name,
            "effects",
        ) || same_text(name, "triggers"))
    }

    /// Tells whether a file of a script directory is a script: one with the
    /// extension `script`.
    pub fn is_script(file_name: &str) -> (yes: bool)
        ensures
            yes == has_extension(file_name@, "script"@),
    {
        file_has_extension(file_name, "script")
    }

    /// Runs the code of a file of a script directory in the virtual machine,
    /// if the file is a script, and tells whether it ran without an error.
    /// A file that is no script is never run.
    pub fn load_file(&self, file_name: &str, code: &str) -> (ran: bool)
        ensures
            ran ==> has_extension(file_name@, "script"@),
    {
        if !ScriptManager::is_script(file_name) {
            return false;
        }
        exec_chunk(&self.lua, code)
    }

    /// The namespace that a line of a manifest registers its function in:
    /// the file must have the extension `txt`, its name must select a
    /// namespace, and the virtual machine must know the function.
    pub open spec fn registers_in(file_name: Seq<char>, known: bool) -> Option<Namespace> {
        if known && has_extension(file_name, "txt"@) {
            manifest_namespace(file_name)
        } else {
            None
        }
    }

    /// What a line of a manifest file does to the host, `function` being
    /// what the virtual machine knows under the name on the line. A known
    /// function is registered under that name in the namespace that the
    /// file's name selects, and `place` tells the namespace and the place.
    /// Otherwise nothing changes and there is no place.
    pub open spec fn global_registered(
        self,
        after: ScriptManager,
        file_name: Seq<char>,
        func_name: String,
        function: Option<Function>,
        place: Option<(Namespace, usize)>,
    ) -> bool {
        match ScriptManager::registers_in(file_name, function is Some) {
            None => place is None && after == self,
            Some(namespace) => {
                let before = self.scripts(namespace);
                &&& place == Some((namespace, first_index_of(names_of(before), func_name@) as usize))
                &&& after.scripts(namespace) == registered(before, func_name, function.unwrap())
                &&& after.lua == self.lua
                &&& forall|other: Namespace|
                    other != namespace ==> after.scripts(other) == self.scripts(other)
            },
        }
    }

    /// Takes one line of a manifest file: the name of a global function.
    /// The function is looked up in the virtual machine and, if it is
    /// there, registered as `register_global` says.
    pub fn set_globals(&mut self, file_name: &str, func_name: String) -> (place: Option<
        (Namespace, usize),
    >)
        ensures
            exists|function: Option<Function>|
                old(self).global_registered(*final(self), file_name@, func_name, function, place),
    {
        let function = global_function(&self.lua, func_name.as_str());
        let place = self.register_global(file_name, func_name, function);
        proof {
            assert(old(self).global_registered(*self, file_name@, func_name, function, place));
        }
        place
    }

    /// Registers what the virtual machine knows under the name on a line of
    /// a manifest file. A function is registered under that name in the
    /// namespace that the file's name selects, in the place of the function
    /// that had the name before, if there is one; the result tells the
    /// namespace and the place. Without a function, or for a file that is no
    /// manifest or selects no namespace, nothing changes.
    pub fn register_global(
        &mut self,
        file_name: &str,
        func_name: String,
        function: Option<Function>,
    ) -> (place: Option<(Namespace, usize)>)
        ensures
            old(self).global_registered(*final(self), file_name@, func_name, function, place),
    {
        let function = match function {
            Some(function) => function,
            None => {
                return None;
            },
        };
        if !file_has_extension(file_name, "txt") {
            return None;
        }
        match namespace_of_manifest(file_name) {
            None => None,
            Some(namespace) => {
                let at = match namespace {
                    Namespace::Core => register(&mut self.core, func_name, function),
                    Namespace::Cards => register(&mut self.cards, func_name, function),
                    Namespace::Effects => register(&mut self.effects, func_name, function),
                    Namespace::Triggers => register(&mut self.triggers, func_name, function),
                };
                Some((namespace, at))
            },
        }
    }

    /// Resolves a qualified name `<namespace>:<function>` to the function
    /// registered under it.
    pub fn get_function(&self, action: &str) -> (found: Option<&Function>)
        ensures
            match self.resolved(action@) {
                Some((namespace, at)) => found == Some(&self.scripts(namespace)[at].function),
                None => found is None,
            },
    {
        match self.find_function(action) {
            Some((Namespace::Core, at)) => Some(&self.core[at].function),
            Some((Namespace::Cards, at)) => Some(&self.cards[at].function),
            Some((Namespace::Effects, at)) => Some(&self.effects[at].function),
            Some((Namespace::Triggers, at)) => Some(&self.triggers[at].function),
            None => None,
        }
    }

    /// Resolves a qualified name `<namespace>:<function>` to the namespace
    /// and the place of the function in it.
    pub fn find_function(&self, action: &str) -> (found: Option<(Namespace, usize)>)
        ensures
            match found {
                Some((namespace, at)) => self.resolved(action@) == Some((namespace, at as int))
                    && at < self.scripts(namespace).len(),
                None => self.resolved(action@) is None,
            },
    {
        let n = action.unicode_len();
        let colon = find_char(action, ':');
        if colon >= n {
            return None;
        }
        let space = action.substring_char(0, colon);
        let key = action.substring_char(colon + 1, n);
        let (namespace, names) = if same_text(space, "cards") {
            (Namespace::Cards, &self.cards)
        } else if same_text(space, "core") {
            (Namespace::Core, &self.core)
        } else if same_text(space, "effects") {
            (Namespace::Effects, &self.effects)
        } else if same_text(space, "triggers") {
            (Namespace::Triggers, &self.triggers)
        } else {
            return None;
        };
        match find_name(names, key) {
            Some(at) => Some((namespace, at)),
            None => None,
        }
    }

    /// What calling a function by its qualified name comes to: the actions
    /// it returned; or that the name resolves to nothing (with the card it
    /// was meant for), that the call failed, or that it returned something
    /// else than actions.
    pub open spec fn call_result(
        self,
        action: Seq<char>,
        card: Seq<char>,
        outcome: ScriptOutcome,
        r: Result<Vec<GameAction>, GameLogicError>,
    ) -> bool {
        if self.resolved(action) is None {
            r matches Err(GameLogicError::FunctionNotFound(a, b)) && a@ == action && b@ == card
        } else {
            match outcome {
                ScriptOutcome::NotCallable => r matches Err(GameLogicError::FunctionNotCallable(a))
                    && a@ == action,
                ScriptOutcome::InvalidResult => r matches Err(GameLogicError::InvalidGameActions),
                ScriptOutcome::Actions(actions) => r == Ok::<Vec<GameAction>, GameLogicError>(
                    actions,
                ),
            }
        }
    }

    /// Judges a call of the function `action` without a context.
    pub fn call_function(&self, action: &str, outcome: ScriptOutcome) -> (r: Result<
        Vec<GameAction>,
        GameLogicError,
    >)
        ensures
            self.call_result(action@, "None"@, outcome, r),
    {
        self.call_function_ctx(action, "None", outcome)
    }

    /// Judges a call of the function `action` made for the card `actor_id`.
    pub fn call_function_ctx(&self, action: &str, actor_id: &str, outcome: ScriptOutcome) -> (r:
        Result<Vec<GameAction>, GameLogicError>)
        ensures
            self.call_result(action@, actor_id@, outcome, r),
    {
        if self.find_function(action).is_none() {
            return Err(
                GameLogicError::FunctionNotFound(
                    String::from_str(action),
                    String::from_str(actor_id),
                ),
            );
        }
        match outcome {
            ScriptOutcome::NotCallable => Err(
                GameLogicError::FunctionNotCallable(String::from_str(action)),
            ),
            ScriptOutcome::InvalidResult => Err(GameLogicError::InvalidGameActions),
            ScriptOutcome::Actions(actions) => Ok(actions),
        }
    }
}

/// Registers a function under a name in a list, and gives its place.
fn register(scripts: &mut Vec<Script>, name: String, function: Function) -> (at: usize)
    ensures
        at == first_index_of(names_of(old(scripts)@), name@),
        final(scripts)@ == registered(old(scripts)@, name, function),
{
    match find_name(scripts, name.as_str()) {
        Some(at) => {
            scripts[at].function = function;
            proof {
                assert(scripts@ =~= registered(old(scripts)@, name, function));
            }
            at
        },
        None => {
            let at = scripts.len();
            scripts.push(Script { name, function });
            at
        },
    }
}

} // verus!
