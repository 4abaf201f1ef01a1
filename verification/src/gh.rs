//! What the remote service answers: data, and a list of errors beside it.

use vstd::prelude::*;
use vstd::string::StringExecFns;

verus! {

/// An answer of the remote service: the data it gave, and the errors it
/// reported beside the data.
#[derive(Debug, Clone)]
pub struct GraphQLResponse<T, E = GraphQLErrors> {
    pub data: T,
    pub errors: E,
}

/// The errors that the remote service reported.
#[derive(Debug, Clone)]
pub struct GraphQLErrors {
    pub errors: Vec<GraphQLError>,
}

impl Default for GraphQLErrors {
    fn default() -> (r: Self)
        ensures
            r.errors@ == Seq::<GraphQLError>::empty(),
    {
        GraphQLErrors { errors: Vec::new() }
    }
}

/// One error of the remote service: what went wrong, and where in the
/// answer.
#[derive(Debug, Clone)]
pub struct GraphQLError {
    pub path: Vec<ObjectPath>,
    pub message: String,
}

impl Default for GraphQLError {
    fn default() -> (r: Self)
        ensures
            r.path@ == Seq::<ObjectPath>::empty(),
            r.message@ == Seq::<char>::empty(),
    {
        GraphQLError { path: Vec::new(), message: String::new() }
    }
}

/// One step of the path to the place of an error: a position in a list or
/// the name of a field.
#[derive(Debug, Clone)]
pub enum ObjectPath {
    Number(usize),
    String(String),
}

/// The texts joined into one, with `separator` between each two.
pub open spec fn joined(texts: Seq<Seq<char>>, separator: Seq<char>) -> Seq<char>
    decreases texts.len(),
{
    if texts.len() == 0 {
        Seq::empty()
    } else if texts.len() == 1 {
        texts[0]
    } else {
        joined(texts.drop_last(), separator) + separator + texts.last()
    }
}

/// The messages of a list of errors, in order.
pub open spec fn messages(errors: Seq<GraphQLError>) -> Seq<Seq<char>> {
    errors.map_values(|e: GraphQLError| e.message@)
}

impl GraphQLErrors {
    /// The messages of all errors, joined with `" / "`.
    pub fn error_msgs(&self) -> (r: String)
        ensures
            r@ == joined(messages(self.errors@), " / "@),
    {
        let ghost all = messages(self.errors@);
        let mut out = String::new();
        let mut i: usize = 0;
        while i < self.errors.len()
            invariant
                i <= self.errors.len(),
                all == messages(self.errors@),
                out@ == joined(all.take(i as int), " / "@),
            decreases self.errors.len() - i,
        {
            proof {
                assert(all.take(i + 1).drop_last() =~= all.take(i as int));
            }
            if i > 0 {
                out.append(" / ");
            }
            out.append(self.errors[i].message.as_str());
            i += 1;
        }
        assert(all.take(self.errors.len() as int) =~= all);
        out
    }
}

/// Why a request to the remote service gave no answer to work with.
#[derive(Debug, Clone)]
pub enum RequestError {
    /// The transport ended with a status other than success.
    Transport { code: i32, stderr: String },
    /// The answer is not of the shape asked for. `remote` holds the messages
    /// of the errors that the remote service reported, joined with `" / "`.
    Decode { error: String, remote: String },
    /// The answer is neither of the shape asked for nor a list of errors.
    Undecodable { error: String, errors_error: String },
}

/// What a finished request comes to.
///
/// `success`, `code` and `stderr` say how the transport ended; `data` is the
/// answer decoded in the shape asked for, or why it is not of that shape;
/// `errors` is the same answer decoded as a list of errors, or why it is
/// none. A transport that failed gives a transport error, whatever it
/// printed. An answer of the right shape is handed on with the errors
/// reported beside it, none where it holds no list of errors. An answer of
/// another shape gives a decode error.
pub fn graphql<T>(
    success: bool,
    code: i32,
    stderr: String,
    data: Result<T, String>,
    errors: Result<GraphQLErrors, String>,
) -> (r: Result<GraphQLResponse<T, GraphQLErrors>, RequestError>)
    ensures
        !success ==> r == Err::<GraphQLResponse<T, GraphQLErrors>, RequestError>(
            RequestError::Transport { code, stderr },
        ),
        success ==> match (data, errors) {
            (Ok(d), Ok(e)) => r == Ok::<GraphQLResponse<T, GraphQLErrors>, RequestError>(
                GraphQLResponse { data: d, errors: e },
            ),
            (Ok(d), Err(_)) => (r matches Ok(answer)) && r->Ok_0.data == d && r->Ok_0.errors.errors@
                == Seq::<GraphQLError>::empty(),
            (Err(de), Ok(e)) => (r matches Err(RequestError::Decode { error, remote })) && r->Err_0
                ->Decode_error == de && r->Err_0->Decode_remote@ == joined(
                messages(e.errors@),
                " / "@,
            ),
            (Err(de), Err(ee)) => r == Err::<GraphQLResponse<T, GraphQLErrors>, RequestError>(
                RequestError::Undecodable { error: de, errors_error: ee },
            ),
        },
{
    if !success {
        return Err(RequestError::Transport { code, stderr });
    }
    match data {
        Ok(data) => {
            let errors = match errors {
                Ok(e) => e,
                Err(_) => GraphQLErrors::default(),
            };
            Ok(GraphQLResponse { data, errors })
        },
        Err(error) => match errors {
            Ok(e) => Err(RequestError::Decode { error, remote: e.error_msgs() }),
            Err(errors_error) => Err(RequestError::Undecodable { error, errors_error }),
        },
    }
}

impl GraphQLErrors {
    /// What a mutation's answer comes to: it went through when the answer
    /// reports no error, else the errors are the failure.
    pub fn into_result(self) -> (r: Result<(), GraphQLErrors>)
        ensures
            self.errors@.len() == 0 ==> r is Ok,
            self.errors@.len() > 0 ==> r == Err::<(), GraphQLErrors>(self),
    {
        if self.errors.len() == 0 {
            Ok(())
        } else {
            Err(self)
        }
    }
}

} // verus!
