//! What one invocation works on, and which mode it runs in.

use vstd::prelude::*;

verus! {

/// Credentials and the target of one invocation. An empty `reference` or
/// `filename` stands for one that was not given.
pub struct Params {
    pub username: String,
    pub token: String,
    pub reference: String,
    pub filename: String,
}

/// What an invocation does.
pub enum Mode {
    /// Void the one purchase named by `reference`.
    Single,
    /// Void each purchase listed in the file `filename`.
    Batch,
    /// Neither a reference nor a file was given: nothing is sent.
    Idle,
}

impl Params {
    pub fn new() -> (r: Self)
        ensures
            r.username@.len() == 0,
            r.token@.len() == 0,
            r.reference@.len() == 0,
            r.filename@.len() == 0,
    {
        Self::default()
    }

    /// Gathers the command-line inputs. A file, where one is given, wins over
    /// a reference; with neither, nothing is kept.
    pub fn from_inputs(
        username: String,
        token: String,
        reference: Option<String>,
        filename: Option<String>,
    ) -> (r: Self)
        ensures
            filename is Some ==> r.username == username && r.token == token
                && r.filename == filename->Some_0 && r.reference@.len() == 0,
            filename is None && reference is Some ==> r.username == username && r.token
                == token && r.reference == reference->Some_0 && r.filename@.len() == 0,
            filename is None && reference is None ==> r.username@.len() == 0 && r.token@.len()
                == 0 && r.reference@.len() == 0 && r.filename@.len() == 0,
    {
        let mut params = Params::new();
        match filename {
            Some(f) => {
                params.username = username;
                params.token = token;
                params.filename = f;
            },
            None => match reference {
                Some(rf) => {
                    params.username = username;
                    params.token = token;
                    params.reference = rf;
                },
                None => {},
            },
        }
        params
    }

    pub open spec fn spec_mode(&self) -> Mode {
        if self.filename@.len() > 0 {
            Mode::Batch
        } else if self.reference@.len() > 0 {
            Mode::Single
        } else {
            Mode::Idle
        }
    }

    /// Batch when a file is named, else single when a reference is, else idle.
    pub fn mode(&self) -> (r: Mode)
        ensures
            r == self.spec_mode(),
    {
        if self.filename.as_str().unicode_len() > 0 {
            Mode::Batch
        } else if self.reference.as_str().unicode_len() > 0 {
            Mode::Single
        } else {
            Mode::Idle
        }
    }
}

impl Default for Params {
    fn default() -> (r: Self)
        ensures
            r.username@.len() == 0,
            r.token@.len() == 0,
            r.reference@.len() == 0,
            r.filename@.len() == 0,
    {
        Params {
            username: String::new(),
            token: String::new(),
            reference: String::new(),
            filename: String::new(),
        }
    }
}

/// An error whose message is `msg` followed by `reference`.
pub fn return_error<T>(msg: &str, reference: &String) -> (r: Result<T, String>)
    ensures
        r is Err,
        r->Err_0@ == msg@ + reference@,
{
    let message = String::from_str(msg).concat(reference.as_str());
    Err(message)
}

} // verus!
