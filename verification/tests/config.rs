use kube_certs::config::{
    handle_onboarding_key, onboarding_config, startup_verdict, ClusterConfig, ConfigEditor,
    Startup, KEY_PATH_FIELD,
};
use kube_certs::manager::EditKey;
use kube_certs::ui_state::OnboardingState;

fn names(items: &[&str]) -> Vec<String> {
    items.iter().map(|s| s.to_string()).collect()
}

#[test]
fn default_settings() {
    let c = ClusterConfig::default();
    assert_eq!(c.control_plane, "1.2.3.4");
    assert_eq!(c.worker_nodes, names(&["1.2.3.4"]));
    assert_eq!(c.remote_user, "adminuser");
    assert_eq!(c.remote_dir, "/etc/kubernetes/pki");
    assert_eq!(c.ssh_key_path, "~/.ssh/id_rsa");
    assert_eq!(c.duplicate(), c);
    assert_eq!(c.get_all_hosts(), names(&["1.2.3.4", "1.2.3.4"]));
}

#[test]
fn editor_shows_the_settings() {
    let mut c = ClusterConfig::default();
    c.worker_nodes = names(&["a", "b", "c"]);
    let e = ConfigEditor::new(&c);
    assert_eq!(e.fields, names(&["adminuser", "1.2.3.4", "a,b,c", "/etc/kubernetes/pki", "~/.ssh/id_rsa"]));
    assert_eq!(e.current_field, 0);
    assert!(!e.is_editing);
    assert!(e.completions.is_empty());
    assert_eq!(KEY_PATH_FIELD, 4);
}

#[test]
fn editor_writes_the_settings_back() {
    let mut e = ConfigEditor::new(&ClusterConfig::default());
    e.fields = names(&["root", "cp", " w1 ,w2,\tw3\n, ", "/pki", "/key"]);
    let mut c = ClusterConfig::default();
    e.apply_to_config(&mut c);
    assert_eq!(
        c,
        ClusterConfig {
            control_plane: "cp".to_string(),
            worker_nodes: names(&["w1", "w2", "w3", ""]),
            remote_user: "root".to_string(),
            ssh_key_path: "/key".to_string(),
            remote_dir: "/pki".to_string(),
        }
    );
    e.fields[2] = String::new();
    e.apply_to_config(&mut c);
    assert_eq!(c.worker_nodes, names(&[""]));
}

#[test]
fn round_trip_through_the_editor() {
    let mut c = ClusterConfig::default();
    c.worker_nodes = names(&["10.0.0.2", "10.0.0.3"]);
    let e = ConfigEditor::new(&c);
    let mut back = ClusterConfig::default();
    e.apply_to_config(&mut back);
    assert_eq!(back, c);
}

#[test]
fn tab_walks_through_completions() {
    let mut e = ConfigEditor::new(&ClusterConfig::default());
    e.handle_tab(names(&["x"]));
    assert!(e.completions.is_empty());
    assert_eq!(e.editing_value, "");
    e.current_field = 4;
    e.editing_value = "~/.s".to_string();
    e.handle_tab(vec![]);
    assert_eq!(e.editing_value, "~/.s");
    assert!(e.wants_completions());
    e.handle_tab(names(&["/h/.ssh/", "/h/.sbt/", "/h/.s3"]));
    assert_eq!((e.editing_value.as_str(), e.selected_completion), ("/h/.ssh/", 0));
    e.handle_tab(vec![]);
    assert_eq!((e.editing_value.as_str(), e.selected_completion), ("/h/.sbt/", 1));
    e.handle_tab(vec![]);
    e.handle_tab(vec![]);
    assert_eq!((e.editing_value.as_str(), e.selected_completion), ("/h/.ssh/", 0));
    e.selected_completion = usize::MAX;
    e.handle_tab(vec![]);
    assert_eq!(e.selected_completion, (usize::MAX % 3 + 1) % 3);
    e.reset_completions();
    assert!(e.completions.is_empty());
    assert_eq!(e.selected_completion, 0);
}

#[test]
fn completion_pattern_ends_in_a_star() {
    assert_eq!(ConfigEditor::completion_pattern("/etc/ss"), "/etc/ss*");
    let home = ConfigEditor::completion_pattern("~/.ssh/");
    assert!(home.ends_with("/.ssh/*"));
}

#[test]
fn startup_depends_on_the_control_plane() {
    assert_eq!(startup_verdict("cp", &names(&[])), Startup::Ready);
    assert_eq!(startup_verdict("cp", &names(&["w1"])), Startup::Degraded);
    assert_eq!(startup_verdict("cp", &names(&["w1", "w2"])), Startup::Degraded);
    assert_eq!(startup_verdict("cp", &names(&["w1", "cp"])), Startup::Unreachable);
    assert_eq!(startup_verdict("cp", &names(&["cp"])), Startup::Unreachable);
}

#[test]
fn onboarding_form_collects_the_settings() {
    let mut o = OnboardingState::new();
    let key = |o: &mut OnboardingState, k| handle_onboarding_key(o, k);
    assert_eq!(key(&mut o, EditKey::Char('x')), None);
    assert_eq!(o.fields[0].value, "");
    assert_eq!(key(&mut o, EditKey::Enter), None);
    assert!(o.fields[0].editing);
    for c in "10.0.0.1x".chars() {
        key(&mut o, EditKey::Char(c));
    }
    key(&mut o, EditKey::Backspace);
    assert_eq!(o.fields[0].value, "10.0.0.1");
    key(&mut o, EditKey::Tab);
    assert_eq!(o.current_field, 1);
    for c in "a, b ,c".chars() {
        key(&mut o, EditKey::Char(c));
    }
    key(&mut o, EditKey::Tab);
    for c in "~/.ssh/id".chars() {
        key(&mut o, EditKey::Char(c));
    }
    key(&mut o, EditKey::Tab);
    for c in "root".chars() {
        key(&mut o, EditKey::Char(c));
    }
    key(&mut o, EditKey::Other);
    key(&mut o, EditKey::Up);
    assert_eq!(o.current_field, 3);
    assert!(!o.completed);
    assert_eq!(key(&mut o, EditKey::Esc), None);
    assert!(o.completed);
    let before = o.clone();
    assert_eq!(key(&mut o, EditKey::Tab), None);
    assert_eq!(o, before);
    let config = key(&mut o, EditKey::Enter).unwrap();
    assert_eq!(
        config,
        ClusterConfig {
            control_plane: "10.0.0.1".to_string(),
            worker_nodes: names(&["a", "b", "c"]),
            remote_user: "root".to_string(),
            ssh_key_path: "~/.ssh/id".to_string(),
            remote_dir: "/etc/kubernetes/pki".to_string(),
        }
    );
    assert_eq!(onboarding_config(&o), Some(config));
    o.fields.pop();
    o.current_field = 0;
    assert_eq!(onboarding_config(&o), None);
    assert_eq!(key(&mut o, EditKey::Enter), None);
}
