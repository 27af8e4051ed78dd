//! The service's response envelope and its conversion into `Result` values.
//!
//! The service wraps every payload in an envelope with a success flag, an
//! optional status code and optional error messages. A request for several
//! ids answers with an envelope of envelopes, one per id and in the order of
//! the ids. The functions here turn both shapes into `Result`s, and their
//! contracts say which `Result` comes out of which envelope.

use vstd::prelude::*;

verus! {

/// Errors from the server
#[derive(Debug, Clone, Hash, PartialEq, Eq, PartialOrd, Ord)]
pub struct SteamGridDbError {
    /// The error status code
    pub status: Option<u32>,
    /// The error messages
    pub errors: Option<Vec<String>>,
}

/// Steamgriddb response type
#[derive(Debug, Clone, Hash, PartialEq, Eq, PartialOrd, Ord)]
pub struct Response<T> {
    /// Was the request a success?
    pub success: bool,
    /// The response data
    pub data: Option<T>,
    /// The status code of the response
    pub status: Option<u32>,
    /// Any errors that occurred
    pub errors: Option<Vec<String>>,
}

/// The payload of a request, or the error that the service reported.
pub type SteamGridDbResult<T> = Result<T, SteamGridDbError>;

/// What an error holds: the status code and the text of each message.
pub struct ErrorView {
    pub status: Option<u32>,
    pub errors: Option<Seq<Seq<char>>>,
}

/// What an envelope holds, over a payload of type `D`.
pub struct ResponseView<D> {
    pub success: bool,
    pub data: Option<D>,
    pub status: Option<u32>,
    pub errors: Option<Seq<Seq<char>>>,
}

impl View for SteamGridDbError {
    type V = ErrorView;

    open spec fn view(&self) -> ErrorView {
        ErrorView { status: self.status, errors: self.errors.deep_view() }
    }
}

/// The text that `{:?}` writes for an optional status code.
pub uninterp spec fn debug_status(status: Option<u32>) -> Seq<char>;

/// The text that `{:?}` writes for an optional list of messages.
pub uninterp spec fn debug_errors(errors: Option<Seq<Seq<char>>>) -> Seq<char>;

/// Writes an optional status code with the standard library's `{:?}`.
///
/// Assumed of the standard library, not proved: the text depends on the
/// status code alone. The contract gives that text a name and says
/// nothing of what it holds.
#[verifier::external_body]
fn format_status(status: &Option<u32>) -> (text: String)
    ensures
        text@ == debug_status(*status),
{
    format!("{:?}", status)
}

/// Writes an optional list of messages with the standard library's `{:?}`.
///
/// Assumed of the standard library, not proved: the text depends on the
/// messages alone. The contract gives that text a name and says nothing
/// of what it holds.
#[verifier::external_body]
fn format_errors(errors: &Option<Vec<String>>) -> (text: String)
    ensures
        text@ == debug_errors(errors.deep_view()),
{
    format!("{:?}", errors)
}

impl SteamGridDbError {
    /// Describes this error in one sentence that names the status code and
    /// the messages, each written as `{:?}` writes it.
    pub fn to_string(&self) -> (text: String)
        ensures
            text@ == "API reported status: "@ + debug_status(self.status) + " with errors: "@
                + debug_errors(self.errors.deep_view()),
    {
        let mut text = "API reported status: ".to_owned();
        text.append(format_status(&self.status).as_str());
        text.append(" with errors: ");
        text.append(format_errors(&self.errors).as_str());
        text
    }
}

/// The message of the error that stands for an envelope which reports
/// success and carries no data.
pub open spec fn no_data_message() -> Seq<char> {
    "success reported but no data found"@
}

/// The error that stands for an envelope which reports success and carries
/// no data: no status, and the one message `no_data_message()`.
pub open spec fn no_data_error() -> ErrorView {
    ErrorView { status: None, errors: Some(seq![no_data_message()]) }
}

/// The contents of an envelope around a list of entities.
pub open spec fn flat_view<T>(r: Response<Vec<T>>) -> ResponseView<Seq<T>> {
    ResponseView {
        success: r.success,
        data: match r.data {
            Some(d) => Some(d@),
            None => None,
        },
        status: r.status,
        errors: r.errors.deep_view(),
    }
}

/// The contents of an envelope around a list of envelopes, one per id.
pub open spec fn batch_view<T>(r: Response<Vec<Response<Vec<T>>>>) -> ResponseView<
    Seq<ResponseView<Seq<T>>>,
> {
    ResponseView {
        success: r.success,
        data: match r.data {
            Some(d) => Some(d@.map_values(|i: Response<Vec<T>>| flat_view(i))),
            None => None,
        },
        status: r.status,
        errors: r.errors.deep_view(),
    }
}

/// The contents of the result of a request for a list of entities.
pub open spec fn flat_result_view<T>(r: SteamGridDbResult<Vec<T>>) -> Result<Seq<T>, ErrorView> {
    match r {
        Ok(v) => Ok(v@),
        Err(e) => Err(e@),
    }
}

/// The contents of the result for one id.
pub open spec fn item_result_view<T>(r: SteamGridDbResult<T>) -> Result<T, ErrorView> {
    match r {
        Ok(v) => Ok(v),
        Err(e) => Err(e@),
    }
}

/// The contents of the result of a request for several ids.
pub open spec fn batch_result_view<T>(r: SteamGridDbResult<Vec<SteamGridDbResult<T>>>) -> Result<
    Seq<Result<T, ErrorView>>,
    ErrorView,
> {
    match r {
        Ok(v) => Ok(v@.map_values(|i: SteamGridDbResult<T>| item_result_view(i))),
        Err(e) => Err(e@),
    }
}

/// The result that a flat envelope stands for.
///
/// A failure keeps the status and the messages of the envelope. A success
/// with data is that data. A success without data is `no_data_error()`.
pub open spec fn normalize_flat<T>(r: ResponseView<Seq<T>>) -> Result<Seq<T>, ErrorView> {
    if !r.success {
        Err(ErrorView { status: r.status, errors: r.errors })
    } else {
        match r.data {
            Some(d) => Ok(d),
            None => Err(no_data_error()),
        }
    }
}

/// The result that the envelope of one id stands for.
///
/// A failure keeps the status and the messages of the envelope. A success
/// with at least one entity is the first entity. A success with no entity
/// is an error without status: it carries the messages of the envelope
/// where the envelope has any, and `no_data_message()` where it has none.
pub open spec fn normalize_item<T>(r: ResponseView<Seq<T>>) -> Result<T, ErrorView> {
    if !r.success {
        Err(ErrorView { status: r.status, errors: r.errors })
    } else if r.data is Some && r.data->0.len() > 0 {
        Ok(r.data->0[0])
    } else if r.errors is Some {
        Err(ErrorView { status: None, errors: r.errors })
    } else {
        Err(no_data_error())
    }
}

/// The result that a batch envelope stands for.
///
/// A failed batch, or one without data, is a single error that keeps the
/// messages of the outer envelope and has no status. Otherwise the result
/// holds `normalize_item` of each inner envelope, in the same order.
pub open spec fn normalize_batch<T>(r: ResponseView<Seq<ResponseView<Seq<T>>>>) -> Result<
    Seq<Result<T, ErrorView>>,
    ErrorView,
> {
    if r.success && r.data is Some {
        Ok(r.data->0.map_values(|i: ResponseView<Seq<T>>| normalize_item(i)))
    } else {
        Err(ErrorView { status: None, errors: r.errors })
    }
}

/// Builds the error for an envelope that reports success without data.
fn missing_data_error() -> (e: SteamGridDbError)
    ensures
        e@ == no_data_error(),
{
    let mut errors: Vec<String> = Vec::new();
    errors.push("success reported but no data found".to_owned());
    let e = SteamGridDbError { status: None, errors: Some(errors) };
    assert(e.errors.deep_view()->0 =~= seq![no_data_message()]);
    e
}

/// Converts the reponse to a result, that is easier to work with
pub fn response_to_result<T>(inner: Response<Vec<T>>) -> (res: SteamGridDbResult<Vec<T>>)
    ensures
        flat_result_view(res) == normalize_flat(flat_view(inner)),
{
    if !inner.success {
        Err(SteamGridDbError { errors: inner.errors, status: inner.status })
    } else {
        match inner.data {
            Some(data) => Ok(data),
            None => Err(missing_data_error()),
        }
    }
}

/// Converts the envelope of one id into the result for that id.
fn item_to_result<T>(item: Response<Vec<T>>) -> (res: SteamGridDbResult<T>)
    ensures
        item_result_view(res) == normalize_item(flat_view(item)),
{
    if !item.success {
        return Err(SteamGridDbError { errors: item.errors, status: item.status });
    }
    match item.data {
        Some(mut data) => {
            if data.len() > 0 {
                return Ok(data.swap_remove(0));
            }
        },
        None => {},
    }
    match item.errors {
        Some(errors) => Err(SteamGridDbError { status: None, errors: Some(errors) }),
        None => Err(missing_data_error()),
    }
}

/// Converts the reponse to a result, that is easier to work with.
/// This will also return a single list of resutls instead of a list of lists
/// (since there are only one element in the list anyways)
pub fn response_to_result_flat<T>(inner: Response<Vec<Response<Vec<T>>>>) -> (res:
    SteamGridDbResult<Vec<SteamGridDbResult<T>>>)
    where
        T: Clone,
    ensures
        batch_result_view(res) == normalize_batch(batch_view(inner)),
{
    if !inner.success {
        return Err(SteamGridDbError { errors: inner.errors, status: None });
    }
    match inner.data {
        Some(data) => {
            let ghost items = data@;
            let mut results: Vec<SteamGridDbResult<T>> = Vec::new();
            for item in it: data
                invariant
                    it.seq() == items,
                    results@.len() == it.index(),
                    forall|i: int|
                        0 <= i < results@.len() ==> item_result_view(#[trigger] results@[i])
                            == normalize_item(flat_view(items[i])),
            {
                let r = item_to_result(item);
                results.push(r);
            }
            assert(results@.map_values(|i: SteamGridDbResult<T>| item_result_view(i))
                =~= items.map_values(|i: Response<Vec<T>>| flat_view(i)).map_values(
                |i: ResponseView<Seq<T>>| normalize_item(i),
            ));
            Ok(results)
        },
        None => Err(SteamGridDbError { status: None, errors: inner.errors }),
    }
}

/// Two envelopes with the same contents stand for the same result: the
/// result of `response_to_result` depends on nothing else.
pub proof fn lemma_response_to_result_deterministic<T>(
    first: Response<Vec<T>>,
    second: Response<Vec<T>>,
)
    requires
        flat_view(first) == flat_view(second),
    ensures
        normalize_flat(flat_view(first)) == normalize_flat(flat_view(second)),
{
}

/// Two batch envelopes with the same contents stand for the same result:
/// the result of `response_to_result_flat` depends on nothing else.
pub proof fn lemma_response_to_result_flat_deterministic<T>(
    first: Response<Vec<Response<Vec<T>>>>,
    second: Response<Vec<Response<Vec<T>>>>,
)
    requires
        batch_view(first) == batch_view(second),
    ensures
        normalize_batch::<T>(batch_view(first)) == normalize_batch::<T>(batch_view(second)),
{
}

/// A batch that reports success and carries data has one result per inner
/// envelope, in the order of the envelopes. An inner failure is the error
/// of its own id and does not fail the batch.
pub proof fn lemma_batch_keeps_length_and_order<T>(envelope: ResponseView<Seq<ResponseView<Seq<T>>>>)
    requires
        envelope.success,
        envelope.data is Some,
    ensures
        normalize_batch(envelope) is Ok,
        normalize_batch(envelope)->Ok_0.len() == envelope.data->0.len(),
        forall|i: int|
            0 <= i < envelope.data->0.len() ==> #[trigger] normalize_batch(envelope)->Ok_0[i]
                == normalize_item(envelope.data->0[i]),
{
}

/// A batch that reports failure is one error, not a list: the error has no
/// status and keeps the messages of the batch.
pub proof fn lemma_failed_batch_is_one_error<T>(envelope: ResponseView<Seq<ResponseView<Seq<T>>>>)
    requires
        !envelope.success,
    ensures
        normalize_batch(envelope) == Err::<Seq<Result<T, ErrorView>>, ErrorView>(
            ErrorView { status: None, errors: envelope.errors },
        ),
{
}

} // verus!
