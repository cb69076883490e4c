//! The environment that the relay runs in, as far as it reads it: variables
//! by name.

use crate::assoc::{find, named_view, value_of};
use vstd::prelude::*;

verus! {

/// Name of the variable that holds the client id.
pub const CLIENT_ID_VAR: &'static str = "TRAKT_CLIENT_ID";

/// Name of the variable that holds the client secret.
pub const CLIENT_SECRET_VAR: &'static str = "TRAKT_CLIENT_SECRET";

/// The variables that the environment offers, each a name and a value. Where
/// a name occurs more than once the first occurrence counts.
#[derive(Clone, Debug, PartialEq, Eq)]
pub struct Env {
    pub vars: Vec<(String, String)>,
}

impl View for Env {
    type V = Seq<(Seq<char>, Seq<char>)>;

    open spec fn view(&self) -> Seq<(Seq<char>, Seq<char>)> {
        named_view(self.vars@)
    }
}

impl Env {
    /// An environment without variables.
    pub fn new() -> (env: Env)
        ensures
            env@ == Seq::<(Seq<char>, Seq<char>)>::empty(),
    {
        let env = Env { vars: Vec::new() };
        proof {
            assert(env@ =~= Seq::<(Seq<char>, Seq<char>)>::empty());
        }
        env
    }

    /// This environment with the variable `name` added behind those it has:
    /// a variable of that name which is there already keeps its value.
    pub fn with_var(self, name: &str, value: &str) -> (env: Env)
        ensures
            env@ == self@.push((name@, value@)),
    {
        let mut vars = self.vars;
        vars.push((String::from_str(name), String::from_str(value)));
        let env = Env { vars };
        proof {
            assert(env@ =~= self@.push((name@, value@)));
        }
        env
    }

    /// The value of the variable `name`, if the environment has it.
    pub fn var(&self, name: &str) -> (value: Option<String>)
        ensures
            value.deep_view() == value_of(self@, name@),
    {
        match find(&self.vars, name) {
            Some(value) => Some(value.clone()),
            None => None,
        }
    }
}

/// What a variable is worth once another has been added: its old value
/// where it had one, the new value where it is the one added, and nothing
/// otherwise.
pub proof fn value_after_push(
    env: Seq<(Seq<char>, Seq<char>)>,
    name: Seq<char>,
    value: Seq<char>,
    wanted: Seq<char>,
)
    ensures
        value_of(env.push((name, value)), wanted) == if value_of(env, wanted) is Some {
            value_of(env, wanted)
        } else if wanted == name {
            Some(value)
        } else {
            None
        },
    decreases env.len(),
{
    let longer = env.push((name, value));
    if env.len() == 0 {
        assert(longer.drop_first() =~= env);
    } else {
        assert(longer[0] == env[0]);
        assert(longer.drop_first() =~= env.drop_first().push((name, value)));
        if env[0].0 != wanted {
            value_after_push(env.drop_first(), name, value, wanted);
        }
    }
}

/// What the handler is given besides the request: the environment.
#[derive(Clone, Debug, PartialEq, Eq)]
pub struct AxumState {
    pub env_wrapper: Env,
}

/// The mathematical value of an [`AxumState`].
pub struct AxumStateView {
    pub env_wrapper: Seq<(Seq<char>, Seq<char>)>,
}

impl View for AxumState {
    type V = AxumStateView;

    open spec fn view(&self) -> AxumStateView {
        AxumStateView { env_wrapper: self.env_wrapper@ }
    }
}

} // verus!
