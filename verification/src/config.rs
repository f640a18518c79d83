//! The cluster's settings and the form that edits them.

use vstd::prelude::*;
use vstd::string::*;
use crate::manager::EditKey;
use crate::ui_state::OnboardingState;
use crate::text::{
    cat, clone_strings, expand_tilde, join, joined, split, split_on, texts, trim, trimmed,
};

verus! {

/// The hosts of the cluster and how they are reached.
#[derive(Clone, Debug, PartialEq, Eq)]
pub struct ClusterConfig {
    pub control_plane: String,
    pub worker_nodes: Vec<String>,
    pub remote_user: String,
    pub ssh_key_path: String,
    pub remote_dir: String,
}

/// The mathematical content of the settings.
pub struct ClusterView {
    pub control_plane: Seq<char>,
    pub worker_nodes: Seq<Seq<char>>,
    pub remote_user: Seq<char>,
    pub ssh_key_path: Seq<char>,
    pub remote_dir: Seq<char>,
}

impl View for ClusterConfig {
    type V = ClusterView;

    open spec fn view(&self) -> ClusterView {
        ClusterView {
            control_plane: self.control_plane@,
            worker_nodes: texts(self.worker_nodes@),
            remote_user: self.remote_user@,
            ssh_key_path: self.ssh_key_path@,
            remote_dir: self.remote_dir@,
        }
    }
}

/// The directory on the hosts that certificates go to unless another is set.
pub open spec fn default_remote_dir() -> Seq<char> {
    "/etc/kubernetes/pki"@
}

/// The settings before anyone has set anything.
pub open spec fn default_cluster() -> ClusterView {
    ClusterView {
        control_plane: "1.2.3.4"@,
        worker_nodes: seq!["1.2.3.4"@],
        remote_user: "adminuser"@,
        ssh_key_path: "~/.ssh/id_rsa"@,
        remote_dir: default_remote_dir(),
    }
}

/// The control plane first, then the workers in their order.
pub open spec fn all_hosts(c: ClusterView) -> Seq<Seq<char>> {
    seq![c.control_plane] + c.worker_nodes
}

impl ClusterConfig {
    /// The settings before anyone has set anything.
    pub fn default() -> (r: Self)
        ensures
            r@ == default_cluster(),
    {
        let worker_nodes = vec![String::from_str("1.2.3.4")];
        assert(texts(worker_nodes@) =~= seq!["1.2.3.4"@]);
        ClusterConfig {
            control_plane: String::from_str("1.2.3.4"),
            worker_nodes,
            remote_user: String::from_str("adminuser"),
            remote_dir: String::from_str("/etc/kubernetes/pki"),
            ssh_key_path: String::from_str("~/.ssh/id_rsa"),
        }
    }

    /// A copy with the same content.
    pub fn duplicate(&self) -> (r: Self)
        ensures
            r@ == self@,
    {
        ClusterConfig {
            control_plane: self.control_plane.clone(),
            worker_nodes: clone_strings(&self.worker_nodes),
            remote_user: self.remote_user.clone(),
            ssh_key_path: self.ssh_key_path.clone(),
            remote_dir: self.remote_dir.clone(),
        }
    }

    /// Every host of the cluster, the control plane first.
    pub fn get_all_hosts(&self) -> (r: Vec<String>)
        ensures
            texts(r@) == all_hosts(self@),
    {
        let mut hosts = vec![self.control_plane.clone()];
        let mut workers = clone_strings(&self.worker_nodes);
        let ghost tail = texts(workers@);
        hosts.append(&mut workers);
        assert(texts(hosts@) =~= seq![self.control_plane@] + tail);
        hosts
    }
}

/// The fields of the form, in order: the remote user, the control plane,
/// the workers joined by commas, the remote directory, the SSH key.
pub open spec fn form_fields(c: ClusterView) -> Seq<Seq<char>> {
    seq![
        c.remote_user,
        c.control_plane,
        joined(c.worker_nodes, ","@),
        c.remote_dir,
        c.ssh_key_path,
    ]
}

/// Each piece without the white space around it.
pub open spec fn each_trimmed(pieces: Seq<Seq<char>>) -> Seq<Seq<char>> {
    Seq::new(pieces.len(), |i: int| trimmed(pieces[i]))
}

/// The settings the fields of the form stand for.
pub open spec fn settings_of(fields: Seq<Seq<char>>) -> ClusterView {
    ClusterView {
        remote_user: fields[0],
        control_plane: fields[1],
        worker_nodes: each_trimmed(split_on(fields[2], ',')),
        remote_dir: fields[3],
        ssh_key_path: fields[4],
    }
}

/// The field that holds the path of the SSH key, the one field with completion.
pub const KEY_PATH_FIELD: usize = 4;

/// The form that edits the settings.
#[derive(Clone, Debug, PartialEq, Eq)]
pub struct ConfigEditor {
    pub fields: Vec<String>,
    pub current_field: usize,
    pub editing_value: String,
    pub is_editing: bool,
    pub completions: Vec<String>,
    pub selected_completion: usize,
}

/// The completion offered after a press of the tab key, where the editor
/// held `before` and `found` is the list a first press takes.
pub open spec fn offered(before: ConfigEditor, found: Vec<String>) -> (Vec<String>, int) {
    if before.completions@.len() == 0 {
        (found, 0)
    } else {
        (
            before.completions,
            (before.selected_completion + 1) % (before.completions@.len() as int),
        )
    }
}

/// How a press of the tab key changes the editor.
pub open spec fn tabbed(before: ConfigEditor, after: ConfigEditor, found: Vec<String>) -> bool {
    if before.current_field != KEY_PATH_FIELD {
        after == before
    } else {
        &&& after.fields == before.fields
        &&& after.current_field == before.current_field
        &&& after.is_editing == before.is_editing
        &&& after.completions == offered(before, found).0
        &&& after.selected_completion == offered(before, found).1
        &&& after.editing_value@ == if after.completions@.len() > 0 {
            after.completions@[after.selected_completion as int]@
        } else {
            before.editing_value@
        }
    }
}

impl ConfigEditor {
    /// The form has its five fields and the cursor stands on one of them.
    pub open spec fn wf(&self) -> bool {
        self.fields@.len() == 5 && self.current_field < 5
    }

    /// The form that shows `config`, with the cursor on its first field.
    pub fn new(config: &ClusterConfig) -> (r: Self)
        ensures
            r.wf(),
            texts(r.fields@) == form_fields(config@),
            r.current_field == 0,
            r.editing_value@.len() == 0,
            !r.is_editing,
            r.completions@.len() == 0,
            r.selected_completion == 0,
    {
        let fields = vec![
            config.remote_user.clone(),
            config.control_plane.clone(),
            join(&config.worker_nodes, ","),
            config.remote_dir.clone(),
            config.ssh_key_path.clone(),
        ];
        assert(texts(fields@) =~= form_fields(config@));
        ConfigEditor {
            fields,
            current_field: 0,
            editing_value: String::new(),
            is_editing: false,
            completions: Vec::new(),
            selected_completion: 0,
        }
    }

    /// Writes the fields of the form into `config`. The workers are the
    /// pieces of their field between commas, each without the white space
    /// around it.
    pub fn apply_to_config(&self, config: &mut ClusterConfig)
        requires
            self.fields@.len() >= 5,
        ensures
            final(config)@ == settings_of(texts(self.fields@)),
    {
        config.remote_user = self.fields[0].clone();
        config.control_plane = self.fields[1].clone();
        let pieces = split(self.fields[2].as_str(), ',');
        let mut workers: Vec<String> = Vec::new();
        let mut i: usize = 0;
        while i < pieces.len()
            invariant
                i <= pieces@.len(),
                workers@.len() == i,
                forall|k: int| 0 <= k < i ==> workers@[k]@ == trimmed(pieces@[k]@),
            decreases pieces@.len() - i,
        {
            workers.push(trim(pieces[i].as_str()));
            i += 1;
        }
        assert(texts(workers@) =~= each_trimmed(texts(pieces@)));
        config.worker_nodes = workers;
        config.remote_dir = self.fields[3].clone();
        config.ssh_key_path = self.fields[4].clone();
    }

    /// Whether the next press of the tab key needs the list of paths that
    /// complete the value being edited.
    pub fn wants_completions(&self) -> (r: bool)
        ensures
            r == (self.current_field == KEY_PATH_FIELD && self.completions@.len() == 0),
    {
        self.current_field == KEY_PATH_FIELD && self.completions.len() == 0
    }

    /// The glob pattern whose matches complete `partial_path`: the path with
    /// its home directory written out, and a star after it.
    pub fn completion_pattern(partial_path: &str) -> (r: String)
        ensures
            exists|expanded: Seq<char>|
                crate::text::tilde_expanded(partial_path@, expanded) && r@ == expanded + "*"@,
            !crate::text::has_prefix(partial_path@, "~"@) ==> r@ == partial_path@ + "*"@,
    {
        let expanded = expand_tilde(partial_path);
        let r = cat(expanded.as_str(), "*");
        assert(crate::text::tilde_expanded(partial_path@, expanded@) && r@ == expanded@ + "*"@);
        r
    }

    /// A press of the tab key. On the key-path field it walks through the
    /// completions: the first press takes `found` as the list and offers
    /// its first item, each later press offers the next, the first again
    /// after the last. On any other field nothing happens.
    pub fn handle_tab(&mut self, found: Vec<String>)
        ensures
            tabbed(*old(self), *final(self), found),
    {
        if self.current_field == KEY_PATH_FIELD {
            if self.completions.len() == 0 {
                self.completions = found;
                self.selected_completion = 0;
            } else {
                let count = self.completions.len();
                self.selected_completion = wrap_index(self.selected_completion, count);
            }
            if self.completions.len() > 0 {
                let at = self.selected_completion;
                self.editing_value = self.completions[at].clone();
            }
        }
    }

    /// Forgets the completions.
    pub fn reset_completions(&mut self)
        ensures
            final(self).completions@.len() == 0,
            final(self).selected_completion == 0,
            final(self).fields == old(self).fields,
            final(self).current_field == old(self).current_field,
            final(self).editing_value == old(self).editing_value,
            final(self).is_editing == old(self).is_editing,
    {
        self.completions = Vec::new();
        self.selected_completion = 0;
    }
}

/// The index after `i` in a round of `count`, computed without overflow.
fn wrap_index(i: usize, count: usize) -> (r: usize)
    requires
        count > 0,
    ensures
        r == (i + 1) % (count as int),
        r < count,
{
    let here = i % count;
    proof {
        lemma_wrap_step(i as int, count as int);
    }
    if here + 1 == count {
        0
    } else {
        here + 1
    }
}

proof fn lemma_wrap_step(i: int, count: int)
    requires
        count > 0,
        i >= 0,
    ensures
        (i + 1) % count == if i % count + 1 == count {
            0
        } else {
            i % count + 1
        },
        0 <= i % count < count,
{
    vstd::arithmetic::div_mod::lemma_mod_bound(i, count);
    vstd::arithmetic::div_mod::lemma_fundamental_div_mod(i, count);
    let q = i / count;
    let r = i % count;
    if r + 1 == count {
        assert(i + 1 == count * (q + 1)) by (nonlinear_arith)
            requires
                i == count * q + r,
                r + 1 == count,
        ;
        vstd::arithmetic::div_mod::lemma_mod_multiples_basic(q + 1, count);
        assert((count * (q + 1)) % count == 0) by {
            vstd::arithmetic::mul::lemma_mul_is_commutative(count, q + 1);
        }
    } else {
        vstd::arithmetic::div_mod::lemma_fundamental_div_mod_converse(i + 1, count, q, r + 1);
    }
}

/// The settings the first-run form stands for: the control plane, the
/// workers between commas, the SSH key and the remote user, in the order
/// of its fields; the remote directory is the default one.
pub open spec fn onboarded(values: Seq<Seq<char>>) -> ClusterView {
    ClusterView {
        control_plane: values[0],
        worker_nodes: each_trimmed(split_on(values[1], ',')),
        ssh_key_path: values[2],
        remote_user: values[3],
        remote_dir: default_remote_dir(),
    }
}

/// The values of the fields of the first-run form.
pub open spec fn form_values(state: OnboardingState) -> Seq<Seq<char>> {
    Seq::new(state.fields@.len(), |i: int| state.fields@[i].value@)
}

/// The settings the first-run form stands for, or none while the form
/// lacks one of its four fields.
pub fn onboarding_config(state: &OnboardingState) -> (r: Option<ClusterConfig>)
    ensures
        state.fields@.len() >= 4 ==> (r matches Some(c) && c@ == onboarded(form_values(*state))),
        state.fields@.len() < 4 ==> r is None,
{
    if state.fields.len() < 4 {
        return None;
    }
    let pieces = split(state.fields[1].value.as_str(), ',');
    let mut workers: Vec<String> = Vec::new();
    let mut i: usize = 0;
    while i < pieces.len()
        invariant
            i <= pieces@.len(),
            workers@.len() == i,
            forall|k: int| 0 <= k < i ==> workers@[k]@ == trimmed(pieces@[k]@),
        decreases pieces@.len() - i,
    {
        workers.push(trim(pieces[i].as_str()));
        i += 1;
    }
    assert(texts(workers@) =~= each_trimmed(texts(pieces@)));
    Some(
        ClusterConfig {
            control_plane: state.fields[0].value.clone(),
            worker_nodes: workers,
            ssh_key_path: state.fields[2].value.clone(),
            remote_user: state.fields[3].value.clone(),
            remote_dir: String::from_str("/etc/kubernetes/pki"),
        },
    )
}

/// How a key changes the first-run form. `Enter` opens the field under
/// the cursor, the tab key moves on, `Esc` declares the form complete,
/// and characters and the backspace key change the field that is open.
/// Once the form is complete, `Enter` hands out its settings and the tab
/// key does nothing.
pub open spec fn onboarding_keyed(
    before: OnboardingState,
    after: OnboardingState,
    key: EditKey,
) -> bool {
    let at = before.current_field as int;
    let open = before.fields@[at].editing;
    let value = before.fields@[at].value@;
    match key {
        EditKey::Tab => if before.completed {
            after == before
        } else {
            crate::ui_state::moved_on(before, after)
        },
        EditKey::Other | EditKey::Up | EditKey::Down => after == before,
        _ => {
            &&& after.current_field == before.current_field
            &&& after.completed == (before.completed || key is Esc)
            &&& after.fields@.len() == before.fields@.len()
            &&& forall|i: int|
                0 <= i < before.fields@.len() && i != at ==> #[trigger] after.fields@[i]
                    == before.fields@[i]
            &&& after.fields@[at].label == before.fields@[at].label
            &&& after.fields@[at].editing == (open || (key is Enter && !before.completed))
            &&& after.fields@[at].value@ == if key is Char && open {
                value.push(key->Char_0)
            } else if key is Backspace && open && value.len() > 0 {
                value.drop_last()
            } else {
                value
            }
        },
    }
}

/// A key pressed in the first-run form. Hands out the settings when the
/// form is complete and `Enter` is pressed.
pub fn handle_onboarding_key(state: &mut OnboardingState, key: EditKey) -> (r: Option<ClusterConfig>)
    requires
        old(state).wf(),
    ensures
        final(state).wf(),
        onboarding_keyed(*old(state), *final(state), key),
        key is Enter && old(state).completed && old(state).fields@.len() >= 4 ==> (r matches Some(
            c,
        ) && c@ == onboarded(form_values(*old(state)))),
        !(key is Enter && old(state).completed && old(state).fields@.len() >= 4) ==> r is None,
{
    let at = state.current_field;
    match key {
        EditKey::Enter => {
            if state.completed {
                let r = onboarding_config(state);
                assert(form_values(*state) =~= form_values(*old(state)));
                return r;
            }
            state.fields[at].editing = true;
        },
        EditKey::Tab => {
            if !state.completed {
                state.next_field();
            }
        },
        EditKey::Esc => {
            state.completed = true;
        },
        EditKey::Char(c) => {
            if state.fields[at].editing {
                crate::text::push_char(&mut state.fields[at].value, c);
            }
        },
        EditKey::Backspace => {
            if state.fields[at].editing {
                crate::text::pop_char(&mut state.fields[at].value);
            }
        },
        _ => {},
    }
    None
}

/// How the program may start, given the nodes that did not answer.
#[derive(Clone, Copy, Debug, PartialEq, Eq, Structural)]
pub enum Startup {
    /// Every node answered.
    Ready,
    /// Some worker did not answer; the program starts with a warning.
    Degraded,
    /// The control plane did not answer; the program does not start.
    Unreachable,
}

/// How the program may start: an unreachable control plane is the one
/// failure that keeps it from starting.
pub open spec fn startup_of(control_plane: Seq<char>, failed: Seq<Seq<char>>) -> Startup {
    if failed.contains(control_plane) {
        Startup::Unreachable
    } else if failed.len() > 0 {
        Startup::Degraded
    } else {
        Startup::Ready
    }
}

/// Decides how the program may start, `failed_nodes` being the nodes that
/// did not answer.
pub fn startup_verdict(control_plane: &str, failed_nodes: &Vec<String>) -> (r: Startup)
    ensures
        r == startup_of(control_plane@, texts(failed_nodes@)),
{
    if crate::manager::listed(failed_nodes, control_plane) {
        Startup::Unreachable
    } else if failed_nodes.len() > 0 {
        Startup::Degraded
    } else {
        Startup::Ready
    }
}

} // verus!
