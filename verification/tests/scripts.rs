use match_server::game::script_manager::{
    file_has_extension, find_name, namespace_of_manifest, Namespace, Script, ScriptManager,
    ScriptOutcome,
};
use match_server::models::game_action::GameAction;
use match_server::utils::errors::GameLogicError;

const CODE: &str = "
function test() return 1 end
function log() return 2 end
function fire() return 3 end
function draw1() return 4 end
function on_end() return 5 end
not_a_function = 6
";

fn names(scripts: &[Script]) -> Vec<&str> {
    scripts.iter().map(|s| s.name.as_str()).collect()
}

fn number(m: &ScriptManager, action: &str) -> Option<i64> {
    m.get_function(action).map(|f| f.call::<i64>(()).unwrap())
}

fn manager() -> ScriptManager {
    let mut m = ScriptManager::new_vm();
    assert!(m.load_file("all.script", CODE));
    assert_eq!(m.set_globals("core.txt", "test".to_string()), Some((Namespace::Core, 0)));
    assert_eq!(m.set_globals("core.txt", "log".to_string()), Some((Namespace::Core, 1)));
    assert_eq!(m.set_globals("cards.txt", "fire".to_string()), Some((Namespace::Cards, 0)));
    assert_eq!(m.set_globals("effects.txt", "draw1".to_string()), Some((Namespace::Effects, 0)));
    assert_eq!(
        m.set_globals("triggers.txt", "on_end".to_string()),
        Some((Namespace::Triggers, 0))
    );
    m
}

#[test]
fn new_vm_has_nothing_registered() {
    let m = ScriptManager::new_vm();
    assert!(m.core.is_empty() && m.cards.is_empty());
    assert!(m.effects.is_empty() && m.triggers.is_empty());
    assert!(m.get_function("core:test").is_none());
    assert_eq!(m.find_function("core:test"), None);
}

#[test]
fn get_function_resolves_qualified_names() {
    let m = manager();
    assert_eq!(m.find_function("core:test"), Some((Namespace::Core, 0)));
    assert_eq!(m.find_function("core:log"), Some((Namespace::Core, 1)));
    assert_eq!(m.find_function("cards:fire"), Some((Namespace::Cards, 0)));
    assert_eq!(m.find_function("effects:draw1"), Some((Namespace::Effects, 0)));
    assert_eq!(m.find_function("triggers:on_end"), Some((Namespace::Triggers, 0)));
    assert_eq!(number(&m, "core:test"), Some(1));
    assert_eq!(number(&m, "core:log"), Some(2));
    assert_eq!(number(&m, "cards:fire"), Some(3));
    assert_eq!(number(&m, "effects:draw1"), Some(4));
    assert_eq!(number(&m, "triggers:on_end"), Some(5));
    for action in
        ["core:fire", "card:fire", "core", "test", "", ":test", "core:", "Core:test"]
    {
        assert_eq!(m.find_function(action), None);
        assert!(m.get_function(action).is_none());
    }
}

#[test]
fn qualified_names_split_at_the_first_colon() {
    let mut m = ScriptManager::new_vm();
    assert!(m.load_file("x.script", "_G['a:b'] = function() return 7 end; function b() return 8 end"));
    m.set_globals("core.txt", "a:b".to_string());
    m.set_globals("core.txt", "b".to_string());
    assert_eq!(m.find_function("core:a:b"), Some((Namespace::Core, 0)));
    assert_eq!(m.find_function("core:b"), Some((Namespace::Core, 1)));
    assert_eq!(number(&m, "core:a:b"), Some(7));
    assert_eq!(number(&m, "core:b"), Some(8));
}

#[test]
fn manifest_lines_register_once_per_namespace() {
    let mut m = manager();
    assert_eq!(m.set_globals("core.txt", "test".to_string()), Some((Namespace::Core, 0)));
    assert_eq!(names(&m.core), vec!["test", "log"]);
    assert_eq!(m.set_globals("core.txt", "gone".to_string()), None);
    assert_eq!(m.set_globals("core.txt", "not_a_function".to_string()), None);
    assert_eq!(m.set_globals("core.script", "test".to_string()), None);
    assert_eq!(m.set_globals("notes.txt", "test".to_string()), None);
    assert_eq!(m.set_globals(".txt", "test".to_string()), None);
    assert_eq!(names(&m.core), vec!["test", "log"]);
    assert_eq!(names(&m.cards), vec!["fire"]);
    assert_eq!(names(&m.effects), vec!["draw1"]);
    assert_eq!(names(&m.triggers), vec!["on_end"]);
    assert_eq!(
        m.set_globals("my_card_list.txt", "test".to_string()),
        Some((Namespace::Cards, 1))
    );
    assert_eq!(names(&m.cards), vec!["fire", "test"]);
    assert_eq!(number(&m, "cards:test"), Some(1));
}

#[test]
fn a_name_registered_again_gets_the_new_function() {
    let mut m = manager();
    assert!(m.load_file("later.script", "function test() return 100 end"));
    assert_eq!(number(&m, "core:test"), Some(1));
    assert_eq!(m.set_globals("core.txt", "test".to_string()), Some((Namespace::Core, 0)));
    assert_eq!(names(&m.core), vec!["test", "log"]);
    assert_eq!(number(&m, "core:test"), Some(100));
    assert_eq!(number(&m, "core:log"), Some(2));
    let fire = m.get_function("cards:fire").cloned();
    assert_eq!(m.register_global("core.txt", "log".to_string(), fire), Some((Namespace::Core, 1)));
    assert_eq!(number(&m, "core:log"), Some(3));
    assert_eq!(m.register_global("core.txt", "log".to_string(), None), None);
    assert_eq!(number(&m, "core:log"), Some(3));
}

#[test]
fn only_script_files_are_run() {
    let m = ScriptManager::new_vm();
    assert!(!m.load_file("a.txt", "x = 1"));
    assert!(!m.load_file(".script", "x = 1"));
    assert!(m.load_file("a.script", "x = 1"));
    assert!(!m.load_file("b.script", "this is not lua"));
    assert_eq!(m.lua.globals().get::<i64>("x").unwrap(), 1);
}

#[test]
fn manifest_names_select_the_namespace() {
    assert_eq!(namespace_of_manifest("core.txt"), Some(Namespace::Core));
    assert_eq!(namespace_of_manifest("cards.txt"), Some(Namespace::Cards));
    assert_eq!(namespace_of_manifest("card_functions.txt"), Some(Namespace::Cards));
    assert_eq!(namespace_of_manifest("effects.txt"), Some(Namespace::Effects));
    assert_eq!(namespace_of_manifest("effect"), Some(Namespace::Effects));
    assert_eq!(namespace_of_manifest("my-triggers.txt"), Some(Namespace::Triggers));
    assert_eq!(namespace_of_manifest("card_core.txt"), Some(Namespace::Core));
    assert_eq!(namespace_of_manifest("trigger_effect.txt"), Some(Namespace::Effects));
    assert_eq!(namespace_of_manifest("readme.txt"), None);
    assert_eq!(namespace_of_manifest(""), None);
    assert_eq!(namespace_of_manifest("cor"), None);
}

#[test]
fn script_folders_and_files_are_chosen_by_name() {
    for name in ["core", "cards", "effects", "triggers"] {
        assert!(ScriptManager::load_scripts(name, true));
        assert!(!ScriptManager::load_scripts(name, false));
    }
    assert!(!ScriptManager::load_scripts("card", true));
    assert!(!ScriptManager::load_scripts("other", true));
    assert!(!ScriptManager::load_scripts("", true));
    assert!(ScriptManager::is_script("a.script"));
    assert!(ScriptManager::is_script("fire.ball.script"));
    assert!(!ScriptManager::is_script(".script"));
    assert!(!ScriptManager::is_script("script"));
    assert!(!ScriptManager::is_script("a.scripts"));
    assert!(!ScriptManager::is_script("a.txt"));
    assert!(!ScriptManager::is_script("a.lua"));
    assert!(!ScriptManager::is_script("ascript"));
    assert!(!ScriptManager::is_script(""));
    assert!(file_has_extension("core.txt", "txt"));
    assert!(!file_has_extension("core.txt", "xt"));
}

#[test]
fn find_name_gives_the_place_of_a_script() {
    let m = manager();
    assert_eq!(find_name(&m.core, "test"), Some(0));
    assert_eq!(find_name(&m.core, "log"), Some(1));
    assert_eq!(find_name(&m.core, "fire"), None);
    assert_eq!(find_name(&Vec::new(), "test"), None);
}

#[test]
fn call_results_are_judged() {
    let m = manager();
    let two = vec![
        GameAction::DealDamage { target: "p2".to_string(), amount: 1 },
        GameAction::Heal { target: "p1".to_string(), amount: 2 },
    ];
    let actions = m.call_function("core:test", ScriptOutcome::Actions(two)).unwrap();
    assert_eq!(actions.len(), 2);
    assert!(matches!(&actions[1], GameAction::Heal { target, amount: 2 } if target == "p1"));
    match m.call_function("core:nothing", ScriptOutcome::Actions(Vec::new())) {
        Err(e) => assert_eq!(
            e.to_string(),
            "Function `core:nothing` was not found for card `None`"
        ),
        Ok(_) => panic!("an unknown function must be reported"),
    }
    match m.call_function_ctx("cards:fire", "c1", ScriptOutcome::NotCallable) {
        Err(GameLogicError::FunctionNotCallable(name)) => assert_eq!(name, "cards:fire"),
        _ => panic!("a failed call must be reported"),
    }
    assert!(matches!(
        m.call_function_ctx("cards:fire", "c1", ScriptOutcome::InvalidResult),
        Err(GameLogicError::InvalidGameActions)
    ));
    match m.call_function_ctx("spells:fire", "c1", ScriptOutcome::NotCallable) {
        Err(GameLogicError::FunctionNotFound(name, card)) => {
            assert_eq!(name, "spells:fire");
            assert_eq!(card, "c1");
        }
        _ => panic!("an unknown namespace must be reported"),
    }
}

fn action_of(entry: &mlua::Table) -> Option<GameAction> {
    let kind: String = entry.get("type").ok()?;
    match kind.as_str() {
        "DealDamage" => Some(GameAction::DealDamage {
            target: entry.get("target").ok()?,
            amount: entry.get("amount").ok()?,
        }),
        "Heal" => Some(GameAction::Heal {
            target: entry.get("target").ok()?,
            amount: entry.get("amount").ok()?,
        }),
        "Summon" => Some(GameAction::Summon {
            id: entry.get("id").ok()?,
            position: entry.get("position").ok()?,
        }),
        _ => None,
    }
}

fn run(m: &ScriptManager, action: &str) -> ScriptOutcome {
    let function = match m.get_function(action) {
        Some(function) => function,
        None => return ScriptOutcome::NotCallable,
    };
    let returned: mlua::Value = match function.call("") {
        Ok(value) => value,
        Err(_) => return ScriptOutcome::NotCallable,
    };
    let table = match returned.as_table() {
        Some(table) => table,
        None => return ScriptOutcome::InvalidResult,
    };
    let mut actions = Vec::new();
    for entry in table.sequence_values::<mlua::Table>() {
        match entry.ok().as_ref().and_then(action_of) {
            Some(action) => actions.push(action),
            None => return ScriptOutcome::InvalidResult,
        }
    }
    ScriptOutcome::Actions(actions)
}

const CORE_TEST: &str = "
function test()
    return {
        { type = 'DealDamage', target = 'p2', amount = 3 },
        { type = 'Summon', id = 'c99', position = 'hand:4' },
    }
end
function broken() error('no') end
function wrong() return { { type = 'Dance' } } end
";

#[test]
fn test_get_function() {
    let mut script_manager = ScriptManager::new_vm();
    assert!(script_manager.load_file("test.script", CORE_TEST));
    script_manager.set_globals("core.txt", "test".to_string());
    let function = script_manager.get_function("core:test");
    assert!(function.is_some());
}

#[test]
fn test_call_function() {
    let mut sm = ScriptManager::new_vm();
    assert!(sm.load_file("test.script", CORE_TEST));
    sm.set_globals("core.txt", "test".to_string());
    let function = sm.call_function("core:test", run(&sm, "core:test"));
    assert!(function.is_ok());
    if let Ok(actions) = function {
        assert_eq!(2, actions.len());
        assert!(matches!(&actions[0], GameAction::DealDamage { target, amount: 3 } if target == "p2"));
        assert!(matches!(&actions[1], GameAction::Summon { id, position } if id == "c99" && position == "hand:4"));
    }
}

#[test]
fn scripts_that_fail_or_return_something_else_are_reported() {
    let mut sm = ScriptManager::new_vm();
    assert!(sm.load_file("test.script", CORE_TEST));
    sm.set_globals("core.txt", "broken".to_string());
    sm.set_globals("core.txt", "wrong".to_string());
    assert!(matches!(
        sm.call_function("core:broken", run(&sm, "core:broken")),
        Err(GameLogicError::FunctionNotCallable(_))
    ));
    assert!(matches!(
        sm.call_function("core:wrong", run(&sm, "core:wrong")),
        Err(GameLogicError::InvalidGameActions)
    ));
    assert!(matches!(
        sm.call_function("core:absent", run(&sm, "core:absent")),
        Err(GameLogicError::FunctionNotFound(_, _))
    ));
}
