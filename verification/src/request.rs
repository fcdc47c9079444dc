//! The parameters of the greeting endpoint, the rule they are held to, and
//! what of a request is recorded on its server span.

use vstd::prelude::*;
use vstd::string::StringExecFns;

use crate::carrier::lookup;
use crate::carrier::HeaderCarrier;
use crate::error::AppError;
use crate::error::ErrorModel;
use crate::span::Attribute;
use crate::span::AttributeModel;
use crate::text::characters;

verus! {

/// The typed query parameters of the endpoint.
#[derive(Debug, Clone)]
pub struct HelloParams {
    pub message: String,
}

impl HelloParams {
    /// The parameters of a request whose query string gave `message`, or
    /// none: a message that is absent counts as the empty one.
    pub fn from_query(message: Option<String>) -> (params: HelloParams)
        ensures
            params.message@ == match message {
                Some(text) => text@,
                None => Seq::<char>::empty(),
            },
    {
        match message {
            Some(text) => HelloParams { message: text },
            None => HelloParams { message: String::new() },
        }
    }
}

/// What the rule says of a message: nothing if it is not empty, else the
/// error that rejects it.
pub open spec fn verdict(message: Seq<char>) -> Option<ErrorModel> {
    if message.len() == 0 {
        Some(ErrorModel::InvalidInput("Message cannot be empty"@))
    } else {
        None
    }
}

/// Holds the parameters to the validation rule: the message must not be
/// empty.
pub fn validate_message(params: &HelloParams) -> (result: Result<(), AppError>)
    ensures
        match result {
            Ok(_) => verdict(params.message@) is None,
            Err(error) => verdict(params.message@) == Some(error@),
        },
{
    if characters(params.message.as_str()).len() == 0 {
        Err(AppError::invalid_input("Message cannot be empty"))
    } else {
        Ok(())
    }
}

/// The headers that may be recorded, as one line: for each name of
/// `recorded`, in order, that a header has, the name, `=`, the value of the
/// first such header, and `;`.
pub open spec fn recorded_text(headers: Seq<(Seq<char>, Seq<char>)>, recorded: Seq<Seq<char>>) -> Seq<
    char,
>
    decreases recorded.len(),
{
    if recorded.len() == 0 {
        Seq::empty()
    } else {
        let name = recorded.last();
        recorded_text(headers, recorded.drop_last()) + match lookup(headers, name) {
            Some(value) => name + "="@ + value + ";"@,
            None => Seq::empty(),
        }
    }
}

/// The names of a list of strings.
pub open spec fn names_of(names: Seq<String>) -> Seq<Seq<char>> {
    names.map_values(|name: String| name@)
}

/// Renders the headers of `carrier` that `recorded` allows to be recorded.
/// No other header reaches the result.
pub fn render_headers(carrier: &HeaderCarrier, recorded: &Vec<String>) -> (text: String)
    ensures
        text@ == recorded_text(carrier@, names_of(recorded@)),
{
    let mut text = String::new();
    let mut i: usize = 0;
    assert(names_of(recorded@).take(0) == Seq::<Seq<char>>::empty());
    while i < recorded.len()
        invariant
            i <= recorded.len(),
            text@ == recorded_text(carrier@, names_of(recorded@).take(i as int)),
        decreases recorded.len() - i,
    {
        let ghost upto = names_of(recorded@).take(i + 1);
        assert(upto.drop_last() == names_of(recorded@).take(i as int));
        assert(upto.last() == recorded@[i as int]@);
        let name = recorded[i].as_str();
        if let Some(value) = carrier.get(name) {
            let ghost before = text@;
            text.append(name);
            text.append("=");
            text.append(value);
            text.append(";");
            assert(text@ == before + (name@ + "="@ + value@ + ";"@));
        } else {
            assert(text@ + Seq::<char>::empty() == text@);
        }
        i += 1;
    }
    assert(names_of(recorded@).take(recorded.len() as int) == names_of(recorded@));
    text
}

/// What is recorded on the server span of a request: its parameters, and
/// those of its headers that may be recorded.
pub open spec fn server_attributes(
    message: Seq<char>,
    headers: Seq<(Seq<char>, Seq<char>)>,
    recorded: Seq<Seq<char>>,
) -> Seq<(Seq<char>, AttributeModel)> {
    seq![
        ("params"@, AttributeModel::Text("message="@ + message)),
        ("headers"@, AttributeModel::Text(recorded_text(headers, recorded))),
    ]
}

/// Builds the attributes of the server span of a request.
pub fn describe_request(
    params: &HelloParams,
    carrier: &HeaderCarrier,
    recorded: &Vec<String>,
) -> (attributes: Vec<Attribute>)
    ensures
        crate::span::attribute_entries(attributes@) == server_attributes(
            params.message@,
            carrier@,
            names_of(recorded@),
        ),
{
    let shown = String::from_str("message=").concat(params.message.as_str());
    let headers = render_headers(carrier, recorded);
    let mut attributes: Vec<Attribute> = Vec::new();
    attributes.push(Attribute::text("params", shown.as_str()));
    attributes.push(Attribute::text("headers", headers.as_str()));
    assert(crate::span::attribute_entries(attributes@) =~= server_attributes(
        params.message@,
        carrier@,
        names_of(recorded@),
    ));
    attributes
}

} // verus!
