use vstd::prelude::*;

verus! {

/// A value in the host's value model.
pub enum HostValue {
    Text(String),
}

/// Conversion of a success value into the host's value model: one rule per type.
pub trait IntoHost: Sized {
    /// The host value that `self` converts to.
    spec fn host_spec(&self) -> HostValue;

    fn into_host(self) -> (r: HostValue)
        ensures
            r == self.host_spec(),
    ;
}

impl IntoHost for String {
    open spec fn host_spec(&self) -> HostValue {
        HostValue::Text(*self)
    }

    fn into_host(self) -> (r: HostValue) {
        HostValue::Text(self)
    }
}

/// What the host's callback receives: an error message or a result, never both.
pub enum Outcome {
    Value(HostValue),
    Failure(String),
}

/// The outcome that a typed result converts to.
pub open spec fn outcome_of<T: IntoHost>(r: Result<T, String>) -> Outcome {
    match r {
        Ok(v) => Outcome::Value(v.host_spec()),
        Err(m) => Outcome::Failure(m),
    }
}

/// The callback's two arguments, error and result, as text: exactly one is set.
pub open spec fn callback_args(o: Outcome) -> (Option<Seq<char>>, Option<Seq<char>>) {
    match o {
        Outcome::Value(HostValue::Text(s)) => (None, Some(s@)),
        Outcome::Failure(m) => (Some(m@), None),
    }
}

/// A body read as text reaches the callback unchanged as its result, with no
/// error; an error message reaches it as its error, with no result.
pub proof fn lemma_callback_arguments(body: String, message: String)
    ensures
        callback_args(outcome_of(Ok::<String, String>(body))) == (None::<Seq<char>>, Some(body@)),
        callback_args(outcome_of(Err::<String, String>(message))) == (Some(message@), None::<Seq<char>>),
{
}

impl Outcome {
    /// Converts a typed result into what the callback receives.
    pub fn from_result<T: IntoHost>(r: Result<T, String>) -> (o: Outcome)
        ensures
            o == outcome_of(r),
    {
        match r {
            Ok(v) => Outcome::Value(v.into_host()),
            Err(m) => Outcome::Failure(m),
        }
    }

    /// The callback's error argument: set exactly when the operation failed.
    pub fn error(&self) -> (r: Option<String>)
        ensures
            match r {
                Some(m) => callback_args(*self).0 == Some(m@),
                None => callback_args(*self).0 is None,
            },
    {
        match self {
            Outcome::Failure(m) => Some(m.clone()),
            Outcome::Value(_) => None,
        }
    }

    /// The callback's result argument: set exactly when the operation succeeded.
    pub fn result(&self) -> (r: Option<String>)
        ensures
            match r {
                Some(s) => callback_args(*self).1 == Some(s@),
                None => callback_args(*self).1 is None,
            },
    {
        match self {
            Outcome::Value(HostValue::Text(s)) => Some(s.clone()),
            Outcome::Failure(_) => None,
        }
    }
}

} // verus!
