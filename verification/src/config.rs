//! Build targets and the resolution of their inheritance.
//!
//! A configuration is a list of named targets. A target may inherit from
//! another one: its resolved form is the resolved form of its parent with
//! every field that the target sets itself written over it.

use vstd::prelude::*;

verus! {

/// A target as the configuration file states it.
#[derive(Debug, Clone)]
pub struct TargetConfig {
    /// Name of the target that this one inherits from.
    pub inherit: Option<String>,
    /// Target type (`android-so`, `xposed`).
    pub target_type: Option<String>,
    /// Target platform (`arm64-v8a`, `x86_64`, and so on).
    pub platform: Option<String>,
    pub version: Option<String>,
    pub frida_version: Option<String>,
    /// Mode (`embedjs`).
    pub mode: Option<String>,
    /// Entry file.
    pub entry: Option<String>,
    /// Whether the payload is xz-compressed.
    pub xz: Option<bool>,
    /// A prebuilt file to use in place of a downloaded one.
    pub override_prebuild_file: Option<String>,
    pub package_name: Option<String>,
    pub keystore: Option<String>,
    pub name: Option<String>,
    pub icon: Option<String>,
}

/// A target with its inheritance resolved.
#[derive(Debug, Clone)]
pub struct ResolvedTarget {
    pub target_type: Option<String>,
    pub platform: Option<String>,
    pub version: Option<String>,
    pub frida_version: Option<String>,
    pub mode: Option<String>,
    pub entry: Option<String>,
    pub xz: bool,
    pub override_prebuild_file: Option<String>,
    pub package_name: Option<String>,
    pub keystore: Option<String>,
    pub name: Option<String>,
    pub icon: Option<String>,
}

/// What a [`TargetConfig`] holds, with texts as sequences of characters.
pub struct TargetModel {
    pub inherit: Option<Seq<char>>,
    pub target_type: Option<Seq<char>>,
    pub platform: Option<Seq<char>>,
    pub version: Option<Seq<char>>,
    pub frida_version: Option<Seq<char>>,
    pub mode: Option<Seq<char>>,
    pub entry: Option<Seq<char>>,
    pub xz: Option<bool>,
    pub override_prebuild_file: Option<Seq<char>>,
    pub package_name: Option<Seq<char>>,
    pub keystore: Option<Seq<char>>,
    pub name: Option<Seq<char>>,
    pub icon: Option<Seq<char>>,
}

/// What a [`ResolvedTarget`] holds, with texts as sequences of characters.
pub struct ResolvedModel {
    pub target_type: Option<Seq<char>>,
    pub platform: Option<Seq<char>>,
    pub version: Option<Seq<char>>,
    pub frida_version: Option<Seq<char>>,
    pub mode: Option<Seq<char>>,
    pub entry: Option<Seq<char>>,
    pub xz: bool,
    pub override_prebuild_file: Option<Seq<char>>,
    pub package_name: Option<Seq<char>>,
    pub keystore: Option<Seq<char>>,
    pub name: Option<Seq<char>>,
    pub icon: Option<Seq<char>>,
}

impl DeepView for TargetConfig {
    type V = TargetModel;

    open spec fn deep_view(&self) -> TargetModel {
        TargetModel {
            inherit: self.inherit.deep_view(),
            target_type: self.target_type.deep_view(),
            platform: self.platform.deep_view(),
            version: self.version.deep_view(),
            frida_version: self.frida_version.deep_view(),
            mode: self.mode.deep_view(),
            entry: self.entry.deep_view(),
            xz: self.xz,
            override_prebuild_file: self.override_prebuild_file.deep_view(),
            package_name: self.package_name.deep_view(),
            keystore: self.keystore.deep_view(),
            name: self.name.deep_view(),
            icon: self.icon.deep_view(),
        }
    }
}

impl DeepView for ResolvedTarget {
    type V = ResolvedModel;

    open spec fn deep_view(&self) -> ResolvedModel {
        ResolvedModel {
            target_type: self.target_type.deep_view(),
            platform: self.platform.deep_view(),
            version: self.version.deep_view(),
            frida_version: self.frida_version.deep_view(),
            mode: self.mode.deep_view(),
            entry: self.entry.deep_view(),
            xz: self.xz,
            override_prebuild_file: self.override_prebuild_file.deep_view(),
            package_name: self.package_name.deep_view(),
            keystore: self.keystore.deep_view(),
            name: self.name.deep_view(),
            icon: self.icon.deep_view(),
        }
    }
}

impl ResolvedModel {
    /// The target that sets nothing.
    pub open spec fn empty() -> ResolvedModel {
        ResolvedModel {
            target_type: None,
            platform: None,
            version: None,
            frida_version: None,
            mode: None,
            entry: None,
            xz: false,
            override_prebuild_file: None,
            package_name: None,
            keystore: None,
            name: None,
            icon: None,
        }
    }
}

/// `over` where it is set, else `base`.
pub open spec fn or_base<T>(over: Option<T>, base: Option<T>) -> Option<T> {
    if over is Some {
        over
    } else {
        base
    }
}

/// `base` with every field that `t` sets written over it.
pub open spec fn overlay(base: ResolvedModel, t: TargetModel) -> ResolvedModel {
    ResolvedModel {
        target_type: or_base(t.target_type, base.target_type),
        platform: or_base(t.platform, base.platform),
        version: or_base(t.version, base.version),
        frida_version: or_base(t.frida_version, base.frida_version),
        mode: or_base(t.mode, base.mode),
        entry: or_base(t.entry, base.entry),
        xz: if t.xz is Some {
            t.xz->Some_0
        } else {
            base.xz
        },
        override_prebuild_file: or_base(t.override_prebuild_file, base.override_prebuild_file),
        package_name: or_base(t.package_name, base.package_name),
        keystore: or_base(t.keystore, base.keystore),
        name: or_base(t.name, base.name),
        icon: or_base(t.icon, base.icon),
    }
}

/// The index of the first entry from `from` on that is called `name`.
pub open spec fn index_from<M>(entries: Seq<(Seq<char>, M)>, name: Seq<char>, from: int) -> Option<
    int,
>
    decreases entries.len() - from,
{
    if from < 0 || from >= entries.len() {
        None
    } else if entries[from].0 == name {
        Some(from)
    } else {
        index_from(entries, name, from + 1)
    }
}

/// The index of the first entry called `name`.
pub open spec fn index_of<M>(entries: Seq<(Seq<char>, M)>, name: Seq<char>) -> Option<int> {
    index_from(entries, name, 0)
}

/// What the first entry called `name` holds.
pub open spec fn lookup<M>(entries: Seq<(Seq<char>, M)>, name: Seq<char>) -> Option<M> {
    match index_of(entries, name) {
        Some(i) => Some(entries[i].1),
        None => None,
    }
}

/// No two entries have the same name.
pub open spec fn distinct_names<M>(entries: Seq<(Seq<char>, M)>) -> bool {
    forall|i: int, j: int|
        0 <= i < j < entries.len() ==> (#[trigger] entries[i]).0 != (#[trigger] entries[j]).0
}

/// The names that occur in `entries`.
pub open spec fn names_of<M>(entries: Seq<(Seq<char>, M)>) -> Set<Seq<char>> {
    entries.map_values(|e: (Seq<char>, M)| e.0).to_set()
}

/// `index_from` finds the first match at or after `from`.
pub proof fn lemma_index_from<M>(entries: Seq<(Seq<char>, M)>, name: Seq<char>, from: int)
    requires
        0 <= from,
    ensures
        match index_from(entries, name, from) {
            Some(i) => from <= i < entries.len() && entries[i].0 == name && forall|j: int|
                from <= j < i ==> (#[trigger] entries[j]).0 != name,
            None => forall|j: int| from <= j < entries.len() ==> (#[trigger] entries[j]).0 != name,
        },
    decreases entries.len() - from,
{
    if from < entries.len() && entries[from].0 != name {
        lemma_index_from(entries, name, from + 1);
    }
}

/// A name that is looked up with success occurs in the entries.
pub proof fn lemma_lookup_is_member<M>(entries: Seq<(Seq<char>, M)>, name: Seq<char>)
    ensures
        names_of(entries).finite(),
        lookup(entries, name) is Some <==> names_of(entries).contains(name),
{
    let names = entries.map_values(|e: (Seq<char>, M)| e.0);
    vstd::seq_lib::seq_to_set_is_finite(names);
    lemma_index_from(entries, name, 0);
    if lookup(entries, name) is Some {
        let i = index_of(entries, name)->Some_0;
        assert(names[i] == name);
    }
    if names_of(entries).contains(name) {
        let i = choose|i: int| 0 <= i < names.len() && names[i] == name;
        assert(entries[i].0 == name);
    }
}

/// Why a configuration cannot be resolved, with texts as sequences of characters.
pub enum ConfigFailure {
    CyclicInheritance(Seq<char>),
    TargetNotFound(Seq<char>),
}

/// The names that may still be visited.
pub open spec fn unvisited(ts: Seq<(Seq<char>, TargetModel)>, visited: Set<Seq<char>>) -> Set<
    Seq<char>,
> {
    names_of(ts).difference(visited)
}

/// Visiting a target that was not visited leaves fewer to visit.
pub proof fn lemma_visit_shrinks(
    ts: Seq<(Seq<char>, TargetModel)>,
    name: Seq<char>,
    visited: Set<Seq<char>>,
)
    requires
        lookup(ts, name) is Some,
        !visited.contains(name),
    ensures
        unvisited(ts, visited.insert(name)).len() < unvisited(ts, visited).len(),
{
    lemma_lookup_is_member(ts, name);
    let before = unvisited(ts, visited);
    assert(before.finite());
    assert(before.contains(name));
    assert(unvisited(ts, visited.insert(name)) =~= before.remove(name));
}

/// The resolved form of the target called `name`, where the targets in
/// `visited` are those that inherit, one from the next, down to `name`.
///
/// A name that no target has is not found. A name that was visited closes a
/// cycle. A target without a parent is itself over the empty target; any
/// other is itself over its resolved parent.
pub open spec fn resolve_chain(
    ts: Seq<(Seq<char>, TargetModel)>,
    name: Seq<char>,
    visited: Set<Seq<char>>,
) -> Result<ResolvedModel, ConfigFailure>
    decreases unvisited(ts, visited).len(),
{
    match lookup(ts, name) {
        None => Err(ConfigFailure::TargetNotFound(name)),
        Some(t) => {
            if visited.contains(name) {
                Err(ConfigFailure::CyclicInheritance(name))
            } else {
                match t.inherit {
                    None => Ok(overlay(ResolvedModel::empty(), t)),
                    Some(parent) => {
                        proof {
                            lemma_visit_shrinks(ts, name, visited);
                        }
                        match resolve_chain(ts, parent, visited.insert(name)) {
                            Ok(base) => Ok(overlay(base, t)),
                            Err(e) => Err(e),
                        }
                    },
                }
            }
        },
    }
}

/// The resolved form of the target called `name`.
pub open spec fn resolve(ts: Seq<(Seq<char>, TargetModel)>, name: Seq<char>) -> Result<
    ResolvedModel,
    ConfigFailure,
> {
    resolve_chain(ts, name, Set::empty())
}

/// A target that resolves among the visited ones resolves to the same among fewer.
pub proof fn lemma_resolved_with_fewer_visited(
    ts: Seq<(Seq<char>, TargetModel)>,
    name: Seq<char>,
    visited: Set<Seq<char>>,
    fewer: Set<Seq<char>>,
)
    requires
        resolve_chain(ts, name, visited) is Ok,
        fewer.subset_of(visited),
    ensures
        resolve_chain(ts, name, fewer) == resolve_chain(ts, name, visited),
    decreases unvisited(ts, visited).len(),
{
    let t = lookup(ts, name)->Some_0;
    if t.inherit is Some {
        lemma_visit_shrinks(ts, name, visited);
        lemma_resolved_with_fewer_visited(
            ts,
            t.inherit->Some_0,
            visited.insert(name),
            fewer.insert(name),
        );
    }
}

/// A target without a parent resolves to its own fields.
pub proof fn lemma_resolve_without_parent(ts: Seq<(Seq<char>, TargetModel)>, name: Seq<char>)
    requires
        lookup(ts, name) matches Some(t) && t.inherit is None,
    ensures
        resolve(ts, name) == Ok::<ResolvedModel, ConfigFailure>(
            overlay(ResolvedModel::empty(), lookup(ts, name)->Some_0),
        ),
{
}

/// A target that resolves has a parent that resolves, and is its own fields
/// over the resolved parent.
pub proof fn lemma_resolve_over_parent(ts: Seq<(Seq<char>, TargetModel)>, name: Seq<char>)
    requires
        resolve(ts, name) is Ok,
        lookup(ts, name) matches Some(t) && t.inherit is Some,
    ensures
        resolve(ts, lookup(ts, name)->Some_0.inherit->Some_0) is Ok,
        resolve(ts, name)->Ok_0 == overlay(
            resolve(ts, lookup(ts, name)->Some_0.inherit->Some_0)->Ok_0,
            lookup(ts, name)->Some_0,
        ),
{
    let parent = lookup(ts, name)->Some_0.inherit->Some_0;
    let visited = Set::<Seq<char>>::empty().insert(name);
    lemma_visit_shrinks(ts, name, Set::empty());
    lemma_resolved_with_fewer_visited(ts, parent, visited, Set::empty());
}

/// The targets of [`FripackConfig::template`].
pub open spec fn template_model() -> Seq<(Seq<char>, TargetModel)> {
    seq![
        (
            "base"@,
            TargetModel {
                inherit: None,
                target_type: None,
                platform: None,
                version: Some("1.0.0"@),
                frida_version: Some("17.5.1"@),
                mode: Some("embedjs"@),
                entry: Some("main.js"@),
                xz: Some(false),
                override_prebuild_file: None,
                package_name: None,
                keystore: None,
                name: None,
                icon: None,
            },
        ),
        (
            "example-xposed"@,
            TargetModel {
                inherit: None,
                target_type: Some("xposed"@),
                platform: Some("arm64-v8a"@),
                version: Some("1.0.0"@),
                frida_version: None,
                mode: None,
                entry: None,
                xz: None,
                override_prebuild_file: None,
                package_name: Some("com.example.myxposedmodule"@),
                keystore: Some("C:\\Users\\YourUser\\.android\\debug.keystore"@),
                name: Some("My Xposed Module"@),
                icon: Some("res\\icon.png"@),
            },
        ),
        (
            "example-android-so"@,
            TargetModel {
                inherit: Some("base"@),
                target_type: Some("android-so"@),
                platform: Some("arm64-v8a"@),
                version: None,
                frida_version: None,
                mode: None,
                entry: None,
                xz: None,
                override_prebuild_file: Some("./libfripack-inject.so"@),
                package_name: None,
                keystore: None,
                name: None,
                icon: None,
            },
        ),
    ]
}

/// The three targets of the template have three names.
pub proof fn lemma_template_names_differ()
    ensures
        distinct_names(template_model()),
{
    reveal_strlit("base");
    reveal_strlit("example-xposed");
    reveal_strlit("example-android-so");
    assert("base"@.len() == 4);
    assert("example-xposed"@.len() == 14);
    assert("example-android-so"@.len() == 18);
}

/// Why a configuration cannot be resolved.
#[derive(Debug, Clone, PartialEq, Eq)]
pub enum ConfigError {
    /// The named target inherits, directly or through others, from itself.
    CyclicInheritance(String),
    /// A target inherits from the named target, which does not exist.
    TargetNotFound(String),
}

impl DeepView for ConfigError {
    type V = ConfigFailure;

    open spec fn deep_view(&self) -> ConfigFailure {
        match self {
            ConfigError::CyclicInheritance(name) => ConfigFailure::CyclicInheritance(name@),
            ConfigError::TargetNotFound(name) => ConfigFailure::TargetNotFound(name@),
        }
    }
}

impl ConfigError {
    /// The error as a line of text.
    pub fn message(&self) -> (text: String)
        ensures
            text@ == match self {
                ConfigError::CyclicInheritance(name) => "Cyclic inheritance detected for target: "@
                    + name@,
                ConfigError::TargetNotFound(name) => "Target not found: "@ + name@,
            },
    {
        match self {
            ConfigError::CyclicInheritance(name) => {
                "Cyclic inheritance detected for target: ".to_owned().concat(name.as_str())
            },
            ConfigError::TargetNotFound(name) => "Target not found: ".to_owned().concat(
                name.as_str(),
            ),
        }
    }
}

/// The targets of a configuration file, in the order in which they were added.
#[derive(Debug, Clone)]
pub struct FripackConfig {
    pub targets: Vec<(String, TargetConfig)>,
}

/// The targets of a configuration with their inheritance resolved.
#[derive(Debug, Clone)]
pub struct ResolvedConfig {
    pub targets: Vec<(String, ResolvedTarget)>,
}

impl View for FripackConfig {
    type V = Seq<(Seq<char>, TargetModel)>;

    open spec fn view(&self) -> Seq<(Seq<char>, TargetModel)> {
        self.targets.deep_view()
    }
}

impl View for ResolvedConfig {
    type V = Seq<(Seq<char>, ResolvedModel)>;

    open spec fn view(&self) -> Seq<(Seq<char>, ResolvedModel)> {
        self.targets.deep_view()
    }
}

/// A copy of a text that may be absent.
fn copy_text(text: &Option<String>) -> (copy: Option<String>)
    ensures
        copy.deep_view() == text.deep_view(),
{
    match text {
        Some(s) => Some(s.clone()),
        None => None,
    }
}

/// The index of the first entry called `name`.
fn position<T: DeepView>(entries: &Vec<(String, T)>, name: &String) -> (found: Option<usize>)
    ensures
        match found {
            Some(i) => index_of(entries.deep_view(), name@) == Some(i as int) && i < entries.len(),
            None => index_of(entries.deep_view(), name@) is None,
        },
{
    let mut i: usize = 0;
    while i < entries.len()
        invariant
            i <= entries.len(),
            index_of(entries.deep_view(), name@) == index_from(
                entries.deep_view(),
                name@,
                i as int,
            ),
        decreases entries.len() - i,
    {
        if entries[i].0 == *name {
            return Some(i);
        }
        i += 1;
    }
    None
}

/// The names in `names`, as a set.
pub open spec fn name_set(names: Seq<String>) -> Set<Seq<char>> {
    Set::new(|n: Seq<char>| exists|i: int| 0 <= i < names.len() && (#[trigger] names[i])@ == n)
}

/// Tells whether `name` is among `names`.
fn has_name(names: &Vec<String>, name: &String) -> (found: bool)
    ensures
        found == name_set(names@).contains(name@),
{
    let mut i: usize = 0;
    while i < names.len()
        invariant
            i <= names.len(),
            forall|j: int| 0 <= j < i ==> (#[trigger] names@[j])@ != name@,
        decreases names.len() - i,
    {
        if names[i] == *name {
            return true;
        }
        i += 1;
    }
    false
}

impl Default for ResolvedTarget {
    fn default() -> (target: Self)
        ensures
            target.deep_view() == ResolvedModel::empty(),
    {
        ResolvedTarget {
            target_type: None,
            platform: None,
            version: None,
            frida_version: None,
            mode: None,
            entry: None,
            xz: false,
            override_prebuild_file: None,
            package_name: None,
            keystore: None,
            name: None,
            icon: None,
        }
    }
}

impl ResolvedConfig {
    /// No two targets have the same name.
    pub open spec fn wf(&self) -> bool {
        distinct_names(self@)
    }

    /// The resolved target called `name`.
    pub fn get(&self, name: &str) -> (found: Option<&ResolvedTarget>)
        ensures
            found.deep_view() == lookup(self@, name@),
    {
        match position(&self.targets, &name.to_owned()) {
            Some(i) => Some(&self.targets[i].1),
            None => None,
        }
    }
}

impl FripackConfig {
    /// No two targets have the same name.
    pub open spec fn wf(&self) -> bool {
        distinct_names(self@)
    }

    /// The target called `name`.
    pub fn get(&self, name: &str) -> (found: Option<&TargetConfig>)
        ensures
            found.deep_view() == lookup(self@, name@),
    {
        match position(&self.targets, &name.to_owned()) {
            Some(i) => Some(&self.targets[i].1),
            None => None,
        }
    }

    /// A configuration without targets.
    pub fn new() -> (config: Self)
        ensures
            config@.len() == 0,
            config.wf(),
    {
        FripackConfig { targets: Vec::new() }
    }

    /// Puts `target` under `name`: in the place of the target of that name
    /// if there is one, else at the end.
    pub fn insert(&mut self, name: String, target: TargetConfig)
        ensures
            match index_of(old(self)@, name@) {
                Some(i) => final(self)@ == old(self)@.update(i, (name@, target.deep_view())),
                None => final(self)@ == old(self)@.push((name@, target.deep_view())),
            },
            old(self).wf() ==> final(self).wf(),
    {
        proof {
            lemma_index_from(self@, name@, 0);
        }
        match position(&self.targets, &name) {
            Some(i) => {
                self.targets.set(i, (name, target));
                assert(self@ =~= old(self)@.update(i as int, (name@, target.deep_view())));
            },
            None => {
                self.targets.push((name, target));
                assert(self@ =~= old(self)@.push((name@, target.deep_view())));
            },
        }
    }

    /// The configuration that a new project starts from: a base target and
    /// one example of each target type.
    pub fn template() -> (config: Self)
        ensures
            config@ == template_model(),
            config.wf(),
    {
        let mut targets: Vec<(String, TargetConfig)> = Vec::new();

        // Base configuration
        targets.push(
            (
                "base".to_owned(),
                TargetConfig {
                    inherit: None,
                    target_type: None,
                    platform: None,
                    version: Some("1.0.0".to_owned()),
                    frida_version: Some("17.5.1".to_owned()),
                    mode: Some("embedjs".to_owned()),
                    entry: Some("main.js".to_owned()),
                    xz: Some(false),
                    override_prebuild_file: None,
                    package_name: None,
                    keystore: None,
                    name: None,
                    icon: None,
                },
            ),
        );

        // Example Xposed module
        targets.push(
            (
                "example-xposed".to_owned(),
                TargetConfig {
                    inherit: None,
                    target_type: Some("xposed".to_owned()),
                    platform: Some("arm64-v8a".to_owned()),
                    version: Some("1.0.0".to_owned()),
                    frida_version: None,
                    mode: None,
                    entry: None,
                    xz: None,
                    override_prebuild_file: None,
                    package_name: Some("com.example.myxposedmodule".to_owned()),
                    keystore: Some("C:\\Users\\YourUser\\.android\\debug.keystore".to_owned()),
                    name: Some("My Xposed Module".to_owned()),
                    icon: Some("res\\icon.png".to_owned()),
                },
            ),
        );

        // Example Android SO
        targets.push(
            (
                "example-android-so".to_owned(),
                TargetConfig {
                    inherit: Some("base".to_owned()),
                    target_type: Some("android-so".to_owned()),
                    platform: Some("arm64-v8a".to_owned()),
                    version: None,
                    frida_version: None,
                    mode: None,
                    entry: None,
                    xz: None,
                    override_prebuild_file: Some("./libfripack-inject.so".to_owned()),
                    package_name: None,
                    keystore: None,
                    name: None,
                    icon: None,
                },
            ),
        );

        let config = FripackConfig { targets };
        proof {
            assert(config@ =~= template_model());
            lemma_template_names_differ();
        }
        config
    }

    /// Resolves the target called `name`, which is `target`. `processing`
    /// holds the targets that are being resolved and wait for this one.
    fn resolve_target(
        &self,
        name: &String,
        target: &TargetConfig,
        processing: &mut Vec<String>,
    ) -> (resolved: Result<ResolvedTarget, ConfigError>)
        requires
            lookup(self@, name@) == Some(target.deep_view()),
        ensures
            match resolve_chain(self@, name@, name_set(old(processing)@)) {
                Ok(model) => resolved matches Ok(r) && r.deep_view() == model && final(processing)@
                    == old(processing)@,
                Err(failure) => resolved matches Err(e) && e.deep_view() == failure,
            },
            name_set(old(processing)@).contains(name@) ==> final(processing)@ == old(processing)@,
        decreases unvisited(self@, name_set(old(processing)@)).len(),
    {
        if has_name(processing, name) {
            return Err(ConfigError::CyclicInheritance(name.clone()));
        }
        let ghost waiting = processing@;
        processing.push(name.clone());
        proof {
            assert(processing@[waiting.len() as int]@ == name@);
            assert forall|n: Seq<char>| name_set(waiting).insert(name@).contains(n) implies name_set(
                processing@,
            ).contains(n) by {
                if n != name@ {
                    let i = choose|i: int| 0 <= i < waiting.len() && (#[trigger] waiting[i])@ == n;
                    assert(processing@[i]@ == n);
                }
            }
            assert(name_set(processing@) =~= name_set(waiting).insert(name@));
            if target.inherit is Some {
                lemma_visit_shrinks(self@, name@, name_set(waiting));
            }
        }

        let mut resolved = ResolvedTarget::default();

        // The parent comes first.
        if let Some(inherit_name) = &target.inherit {
            match self.get(inherit_name.as_str()) {
                Some(parent_target) => {
                    match self.resolve_target(inherit_name, parent_target, processing) {
                        Ok(parent_resolved) => {
                            resolved = parent_resolved;
                        },
                        Err(e) => {
                            return Err(e);
                        },
                    }
                },
                None => {
                    return Err(ConfigError::TargetNotFound(inherit_name.clone()));
                },
            }
        }
        let ghost base = resolved.deep_view();

        // Then what this target sets itself.
        if target.target_type.is_some() {
            resolved.target_type = copy_text(&target.target_type);
        }
        if target.platform.is_some() {
            resolved.platform = copy_text(&target.platform);
        }
        if target.version.is_some() {
            resolved.version = copy_text(&target.version);
        }
        if target.frida_version.is_some() {
            resolved.frida_version = copy_text(&target.frida_version);
        }
        if target.mode.is_some() {
            resolved.mode = copy_text(&target.mode);
        }
        if target.entry.is_some() {
            resolved.entry = copy_text(&target.entry);
        }
        if let Some(xz) = target.xz {
            resolved.xz = xz;
        }
        if target.override_prebuild_file.is_some() {
            resolved.override_prebuild_file = copy_text(&target.override_prebuild_file);
        }
        if target.package_name.is_some() {
            resolved.package_name = copy_text(&target.package_name);
        }
        if target.keystore.is_some() {
            resolved.keystore = copy_text(&target.keystore);
        }
        if target.name.is_some() {
            resolved.name = copy_text(&target.name);
        }
        if target.icon.is_some() {
            resolved.icon = copy_text(&target.icon);
        }
        assert(resolved.deep_view() == overlay(base, target.deep_view()));

        processing.pop();
        assert(processing@ =~= waiting);
        Ok(resolved)
    }

    /// Resolves every target, in the order of the configuration.
    ///
    /// The result holds, under each name, the target's own fields over
    /// those of its ancestors. The first target that inherits from a name
    /// that no target has, or whose ancestors form a cycle, gives the error.
    pub fn resolve_inheritance(&self) -> (resolved: Result<ResolvedConfig, ConfigError>)
        ensures
            match resolved {
                Ok(config) => {
                    &&& config@.len() == self@.len()
                    &&& forall|i: int|
                        0 <= i < self@.len() ==> (#[trigger] config@[i]).0 == self@[i].0
                            && resolve(self@, self@[i].0) == Ok::<ResolvedModel, ConfigFailure>(
                            config@[i].1,
                        )
                },
                Err(e) => exists|k: int|
                    {
                        &&& 0 <= k < self@.len()
                        &&& resolve(self@, (#[trigger] self@[k]).0) == Err::<
                            ResolvedModel,
                            ConfigFailure,
                        >(e.deep_view())
                        &&& forall|j: int| 0 <= j < k ==> resolve(self@, (#[trigger] self@[j]).0) is Ok
                    },
            },
    {
        let mut resolved_targets: Vec<(String, ResolvedTarget)> = Vec::new();
        let mut processing: Vec<String> = Vec::new();
        let mut i: usize = 0;
        while i < self.targets.len()
            invariant
                i <= self.targets.len(),
                processing@.len() == 0,
                resolved_targets.deep_view().len() == i,
                forall|j: int|
                    0 <= j < i ==> (#[trigger] resolved_targets.deep_view()[j]).0 == self@[j].0
                        && resolve(self@, self@[j].0) == Ok::<ResolvedModel, ConfigFailure>(
                        resolved_targets.deep_view()[j].1,
                    ),
            decreases self.targets.len() - i,
        {
            let name = &self.targets[i].0;
            assert(name@ == self@[i as int].0);
            assert(name_set(processing@) =~= Set::empty());
            match self.get(name.as_str()) {
                Some(target) => {
                    let ghost done = resolved_targets.deep_view();
                    match self.resolve_target(name, target, &mut processing) {
                        Ok(resolved) => {
                            resolved_targets.push((name.clone(), resolved));
                            assert(resolved_targets.deep_view() =~= done.push(
                                (name@, resolved.deep_view()),
                            ));
                        },
                        Err(e) => {
                            assert(resolve(self@, self@[i as int].0) == Err::<
                                ResolvedModel,
                                ConfigFailure,
                            >(e.deep_view()));
                            assert forall|j: int| 0 <= j < i implies resolve(
                                self@,
                                (#[trigger] self@[j]).0,
                            ) is Ok by {
                                assert(done[j].0 == self@[j].0);
                            }
                            return Err(e);
                        },
                    }
                },
                None => {
                    proof {
                        lemma_index_from(self@, name@, 0);
                    }
                    assert(false);
                },
            }
            i += 1;
        }
        Ok(ResolvedConfig { targets: resolved_targets })
    }
}

} // verus!
