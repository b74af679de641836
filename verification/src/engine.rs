//! Engine configuration and the steps that bring an engine up.

use vstd::prelude::*;
use vstd::string::*;
use crate::error::SystemActorError;

verus! {

/// The identity of a persisted entity: the table it lives in and its key
/// there. Entities hold one as a field.
#[derive(Debug, PartialEq, Eq)]
pub struct Record {
    pub table: String,
    pub key: String,
}

impl Clone for Record {
    fn clone(&self) -> (r: Self)
        ensures
            r == *self,
    {
        Record { table: self.table.clone(), key: self.key.clone() }
    }
}

/// Configuration of an engine.
#[derive(Debug, PartialEq, Eq)]
pub struct EngineOptions {
    /// The namespace to use in the store.
    pub namespace: String,
    /// The name of the database to use.
    pub database: String,
    /// The username for authentication.
    pub username: String,
    /// The password for authentication.
    pub password: String,
    /// The directory that roots the blob store.
    pub local_store: String,
}

impl Clone for EngineOptions {
    fn clone(&self) -> (r: Self)
        ensures
            r == *self,
    {
        EngineOptions {
            namespace: self.namespace.clone(),
            database: self.database.clone(),
            username: self.username.clone(),
            password: self.password.clone(),
            local_store: self.local_store.clone(),
        }
    }
}

impl EngineOptions {
    /// The options for local use, with the blob store under
    /// `output/store` in `workspace_root`.
    pub fn rooted_at(workspace_root: &str) -> (r: EngineOptions)
        ensures
            r.namespace@ == "dev"@,
            r.database@ == "bioma"@,
            r.username@ == "root"@,
            r.password@ == "root"@,
            r.local_store@ == workspace_root@ + "/output/store"@,
    {
        EngineOptions {
            namespace: String::from_str("dev"),
            database: String::from_str("bioma"),
            username: String::from_str("root"),
            password: String::from_str("root"),
            local_store: String::from_str(workspace_root).concat("/output/store"),
        }
    }
}

impl Default for EngineOptions {
    /// The options for local use in the current directory.
    fn default() -> (r: Self)
        ensures
            r.namespace@ == "dev"@,
            r.database@ == "bioma"@,
            r.username@ == "root"@,
            r.password@ == "root"@,
            r.local_store@ == "."@ + "/output/store"@,
    {
        EngineOptions::rooted_at(".")
    }
}

/// What is to be done next to bring an engine up.
#[derive(Clone, Copy, Debug, PartialEq, Eq, Structural)]
pub enum SetupStep {
    /// Open the session.
    Connect,
    /// Present the credentials.
    SignIn,
    /// Select namespace and database.
    UseDatabase,
    /// Apply the startup schema.
    ApplySchema,
    /// Nothing: the engine is up.
    Ready,
}

/// The step after `step` has succeeded.
pub open spec fn step_after(step: SetupStep, sign_in: bool) -> SetupStep {
    match step {
        SetupStep::Connect => if sign_in {
            SetupStep::SignIn
        } else {
            SetupStep::UseDatabase
        },
        SetupStep::SignIn => SetupStep::UseDatabase,
        SetupStep::UseDatabase => SetupStep::ApplySchema,
        SetupStep::ApplySchema => SetupStep::Ready,
        SetupStep::Ready => SetupStep::Ready,
    }
}

/// The failure that ends the setup when `step` fails with `cause`.
pub open spec fn step_failure(step: SetupStep, cause: String) -> SystemActorError {
    match step {
        SetupStep::Connect => SystemActorError::ConnectionFailure(cause),
        SetupStep::SignIn => SystemActorError::AuthFailure(cause),
        SetupStep::ApplySchema => SystemActorError::SchemaApplyFailure(cause),
        _ => SystemActorError::System(cause),
    }
}

/// Where the setup stands after its steps, taken from `step` on, ended as
/// `outcomes` says (`true`: the step succeeded): `None` once one failed.
pub open spec fn setup_from(step: SetupStep, sign_in: bool, outcomes: Seq<bool>) -> Option<
    SetupStep,
>
    decreases outcomes.len(),
{
    if outcomes.len() == 0 {
        Some(step)
    } else if step == SetupStep::Ready {
        Some(step)
    } else if !outcomes.first() {
        None
    } else {
        setup_from(step_after(step, sign_in), sign_in, outcomes.drop_first())
    }
}

/// The handle to a store connection that is being, or has been, set up.
#[derive(Debug)]
pub struct Engine {
    options: EngineOptions,
    step: SetupStep,
    sign_in: bool,
}

impl Clone for Engine {
    fn clone(&self) -> (r: Self)
        ensures
            r == *self,
    {
        Engine { options: self.options.clone(), step: self.step, sign_in: self.sign_in }
    }
}

impl Engine {
    /// What is to be done next.
    pub closed spec fn step(&self) -> SetupStep {
        self.step
    }

    /// Whether the setup presents credentials.
    pub closed spec fn signs_in(&self) -> bool {
        self.sign_in
    }

    /// The options the engine was made with.
    pub closed spec fn configured(&self) -> EngineOptions {
        self.options
    }

    /// Begins the setup of an engine against a store that is signed in to.
    pub fn connect(options: EngineOptions) -> (r: Engine)
        ensures
            r.step() == SetupStep::Connect,
            r.signs_in(),
            r.configured() == options,
    {
        Engine { options, step: SetupStep::Connect, sign_in: true }
    }

    /// Begins the setup of an engine for local testing: default options,
    /// and a store in memory that asks for no credentials.
    pub fn test() -> (r: Engine)
        ensures
            r.step() == SetupStep::Connect,
            !r.signs_in(),
            r.configured().namespace@ == "dev"@,
            r.configured().database@ == "bioma"@,
            r.configured().username@ == "root"@,
            r.configured().password@ == "root"@,
            r.configured().local_store@ == "."@ + "/output/store"@,
    {
        Engine { options: EngineOptions::default(), step: SetupStep::Connect, sign_in: false }
    }

    /// What is to be done next.
    pub fn pending(&self) -> (r: SetupStep)
        ensures
            r == self.step(),
    {
        self.step
    }

    /// Takes the outcome of the pending step. Success moves the setup on; a
    /// failure ends it with the failure of that step, wrapping the cause.
    /// An engine that is up stays as it is.
    pub fn advance(self, outcome: Result<(), String>) -> (r: Result<Engine, SystemActorError>)
        ensures
            r is Ok <==> (outcome is Ok || self.step() == SetupStep::Ready),
            r is Ok ==> {
                &&& r->Ok_0.step() == step_after(self.step(), self.signs_in())
                &&& r->Ok_0.signs_in() == self.signs_in()
                &&& r->Ok_0.configured() == self.configured()
            },
            r is Err ==> r->Err_0 == step_failure(self.step(), outcome->Err_0),
    {
        let next = match self.step {
            SetupStep::Connect => if self.sign_in {
                SetupStep::SignIn
            } else {
                SetupStep::UseDatabase
            },
            SetupStep::SignIn => SetupStep::UseDatabase,
            SetupStep::UseDatabase => SetupStep::ApplySchema,
            SetupStep::ApplySchema => SetupStep::Ready,
            SetupStep::Ready => {
                return Ok(self);
            },
        };
        match outcome {
            Ok(_) => Ok(Engine { options: self.options, step: next, sign_in: self.sign_in }),
            Err(cause) => match self.step {
                SetupStep::Connect => Err(SystemActorError::ConnectionFailure(cause)),
                SetupStep::SignIn => Err(SystemActorError::AuthFailure(cause)),
                SetupStep::ApplySchema => Err(SystemActorError::SchemaApplyFailure(cause)),
                _ => Err(SystemActorError::System(cause)),
            },
        }
    }

    /// Whether the engine is in working order: it is up, and the probe of
    /// its connection just now says `reachable`.
    pub fn health(&self, reachable: bool) -> (r: bool)
        ensures
            r == (self.step() == SetupStep::Ready && reachable),
    {
        self.step == SetupStep::Ready && reachable
    }

    /// The directory for debug exports: `output/debug` in `workspace_root`.
    pub fn debug_output_dir(&self, workspace_root: &str) -> (r: String)
        ensures
            r@ == workspace_root@ + "/output/debug"@,
    {
        String::from_str(workspace_root).concat("/output/debug")
    }

    /// The options the engine was made with.
    pub fn options(&self) -> (r: &EngineOptions)
        ensures
            *r == self.configured(),
    {
        &self.options
    }
}

/// A setup whose session opens, whose credentials (where presented) are
/// taken and whose database is selected comes up exactly if the schema
/// could be applied; an engine that is up and reachable reports health.
pub proof fn lemma_up_iff_schema_applied(sign_in: bool, schema_applied: bool)
    ensures
        setup_from(
            SetupStep::Connect,
            sign_in,
            if sign_in {
                seq![true, true, true, schema_applied]
            } else {
                seq![true, true, schema_applied]
            },
        ) == Some(SetupStep::Ready) <==> schema_applied,
{
    let outcomes = if sign_in {
        seq![true, true, true, schema_applied]
    } else {
        seq![true, true, schema_applied]
    };
    reveal_with_fuel(setup_from, 6);
    let a = outcomes.drop_first();
    let b = a.drop_first();
    let c = b.drop_first();
    assert(outcomes.first());
    assert(a.first());
    if sign_in {
        assert(b.first());
        assert(c.first() == schema_applied);
        assert(c.drop_first().len() == 0);
    } else {
        assert(b.first() == schema_applied);
        assert(c.len() == 0);
    }
}

} // verus!
