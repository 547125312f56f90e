//! The environment that the server is started with.

use vstd::prelude::*;

verus! {

/// One environment variable: its name and its value.
#[derive(Debug)]
pub struct EnvVar {
    pub name: String,
    pub value: String,
}

impl View for EnvVar {
    type V = (Seq<char>, Seq<char>);

    open spec fn view(&self) -> (Seq<char>, Seq<char>) {
        (self.name@, self.value@)
    }
}

/// An environment as a sequence of bindings, name first.
pub type Env = Seq<(Seq<char>, Seq<char>)>;

/// The value that `env` binds `name` to: that of the first binding of that
/// name, if there is one.
pub open spec fn lookup(env: Env, name: Seq<char>) -> Option<Seq<char>>
    decreases env.len(),
{
    if env.len() == 0 {
        None
    } else if env[0].0 == name {
        Some(env[0].1)
    } else {
        lookup(env.drop_first(), name)
    }
}

/// No name is bound twice in `env`.
pub open spec fn distinct_names(env: Env) -> bool {
    forall|i: int, j: int| 0 <= i < j < env.len() ==> env[i].0 != env[j].0
}

/// The environment of every launch: production mode, port 3000, and two
/// auxiliary values, one of them empty.
pub open spec fn production_env() -> Env {
    seq![
        ("NODE_ENV"@, "production"@),
        ("PORT"@, "3000"@),
        ("WORLD"@, "world"@),
        ("PUBLIC_ASSETS_URL"@, ""@),
    ]
}

/// The environment variables of one launch, in a fixed order. Built once,
/// never changed afterwards.
#[derive(Debug)]
pub struct LaunchConfig {
    vars: Vec<EnvVar>,
}

impl View for LaunchConfig {
    type V = Env;

    closed spec fn view(&self) -> Env {
        Seq::new(self.vars.len() as nat, |i: int| self.vars[i]@)
    }
}

/// The text of an optional string.
pub open spec fn option_string_view(s: Option<String>) -> Option<Seq<char>> {
    match s {
        Some(text) => Some(text@),
        None => None,
    }
}

impl LaunchConfig {
    /// The configuration of every launch. It depends on nothing: two calls
    /// give the same bindings.
    pub fn production() -> (config: LaunchConfig)
        ensures
            config@ == production_env(),
    {
        let mut vars: Vec<EnvVar> = Vec::new();
        vars.push(
            EnvVar { name: String::from_str("NODE_ENV"), value: String::from_str("production") },
        );
        vars.push(EnvVar { name: String::from_str("PORT"), value: String::from_str("3000") });
        vars.push(EnvVar { name: String::from_str("WORLD"), value: String::from_str("world") });
        vars.push(
            EnvVar { name: String::from_str("PUBLIC_ASSETS_URL"), value: String::from_str("") },
        );
        let config = LaunchConfig { vars };
        assert(config@ =~= production_env());
        config
    }

    /// The bindings, in order.
    pub fn vars(&self) -> (vars: &Vec<EnvVar>)
        ensures
            vars.len() == self@.len(),
            forall|i: int| 0 <= i < vars.len() ==> (#[trigger] vars[i])@ == self@[i],
    {
        &self.vars
    }

    /// The value bound to `name`, if any.
    pub fn get(&self, name: &str) -> (value: Option<String>)
        ensures
            option_string_view(value) == lookup(self@, name@),
    {
        let key = String::from_str(name);
        let mut i: usize = 0;
        assert(self@.skip(0) =~= self@);
        while i < self.vars.len()
            invariant
                i <= self.vars.len(),
                key@ == name@,
                lookup(self@, name@) == lookup(self@.skip(i as int), name@),
            decreases self.vars.len() - i,
        {
            let ghost rest = self@.skip(i as int);
            if self.vars[i].name == key {
                assert(rest[0] == self@[i as int]);
                return Some(self.vars[i].value.clone());
            }
            assert(rest[0] == self@[i as int]);
            assert(rest.drop_first() =~= self@.skip(i + 1));
            i += 1;
        }
        assert(self@.skip(i as int).len() == 0);
        None
    }
}

/// The production environment binds `PORT` to `3000` and `NODE_ENV` to
/// `production`, and binds no name twice.
pub proof fn lemma_production_env_bindings()
    ensures
        lookup(production_env(), "PORT"@) == Some("3000"@),
        lookup(production_env(), "NODE_ENV"@) == Some("production"@),
        distinct_names(production_env()),
{
    reveal_strlit("NODE_ENV");
    reveal_strlit("PORT");
    reveal_strlit("WORLD");
    reveal_strlit("PUBLIC_ASSETS_URL");
    let env = production_env();
    assert(env[0].0.len() == 8);
    assert(env[1].0.len() == 4);
    assert(env[2].0.len() == 5);
    assert(env[3].0.len() == 17);
    assert(env.drop_first()[0] == env[1]);
    reveal_with_fuel(lookup, 3);
}

} // verus!
