use vstd::prelude::*;

verus! {

/// The error that every client operation hands back to JavaScript: a message.
pub struct FluvioErrorJS(pub String);

impl FluvioErrorJS {
    /// Wraps an error message.
    pub fn new(inner: String) -> (e: FluvioErrorJS)
        ensures
            e.0@ == inner@,
    {
        FluvioErrorJS(inner)
    }

    /// The error of an operation on a handle that holds no client.
    pub fn client_not_found() -> (e: FluvioErrorJS)
        ensures
            e.0@ == crate::CLIENT_NOT_FOUND_ERROR_MSG@,
    {
        FluvioErrorJS(String::from_str(crate::CLIENT_NOT_FOUND_ERROR_MSG))
    }
}

/// An argument from JavaScript that cannot be turned into what was asked for.
pub struct ArgError(pub String);

/// The message of a required property that was not given.
pub open spec fn missing_property_message(name: Seq<char>) -> Seq<char> {
    "missing "@ + name + " property"@
}

impl ArgError {
    /// An error with the given message.
    pub fn other(message: &str) -> (e: ArgError)
        ensures
            e.0@ == message@,
    {
        ArgError(String::from_str(message))
    }

    /// An error whose message is `prefix` followed by `detail`.
    pub fn prefixed(prefix: &str, detail: &str) -> (e: ArgError)
        ensures
            e.0@ == prefix@ + detail@,
    {
        let mut m = String::from_str(prefix);
        m.append(detail);
        ArgError(m)
    }

    /// An error whose message is `prefix` followed by `detail` and `suffix`.
    pub fn framed(prefix: &str, detail: &str, suffix: &str) -> (e: ArgError)
        ensures
            e.0@ == prefix@ + detail@ + suffix@,
    {
        let mut m = String::from_str(prefix);
        m.append(detail);
        m.append(suffix);
        ArgError(m)
    }
}

/// A required property: its value, or the error that names it.
pub fn must<T>(name: &str, value: Option<T>) -> (r: Result<T, ArgError>)
    ensures
        value matches Some(v) ==> r == Ok::<T, ArgError>(v),
        value is None ==> (r matches Err(e) && e.0@ == missing_property_message(name@)),
{
    match value {
        Some(v) => Ok(v),
        None => Err(ArgError::framed("missing ", name, " property")),
    }
}

} // verus!
