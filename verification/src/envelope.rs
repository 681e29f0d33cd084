//! The text of outbound requests.
//!
//! A request is the object `{"jsonrpc":"2.0","id":..,"method":..,"params":..}`.
//! The id is written in decimal, the method as a JSON string, and the
//! parameters are put in as the caller wrote them.

use vstd::prelude::*;
use vstd::string::*;
use crate::outside::{json_quote, json_quoted, names_of};
use crate::types::RequestScope;

verus! {

/// A method with its parameters, ready to be sent as a request.
#[derive(Clone, Debug, PartialEq, Eq)]
pub struct RpcCall {
    pub method: String,
    /// The parameters as JSON text.
    pub params: String,
}

/// The character of a decimal digit.
pub open spec fn digit_char(digit: nat) -> char {
    if digit == 0 {
        '0'
    } else if digit == 1 {
        '1'
    } else if digit == 2 {
        '2'
    } else if digit == 3 {
        '3'
    } else if digit == 4 {
        '4'
    } else if digit == 5 {
        '5'
    } else if digit == 6 {
        '6'
    } else if digit == 7 {
        '7'
    } else if digit == 8 {
        '8'
    } else {
        '9'
    }
}

/// A number in decimal, without leading zeros.
pub open spec fn decimal(n: nat) -> Seq<char>
    decreases n,
{
    if n < 10 {
        seq![digit_char(n)]
    } else {
        decimal(n / 10).push(digit_char(n % 10))
    }
}

/// The text of the request with this id, method and parameters.
pub open spec fn request(id: u64, method: Seq<char>, params: Seq<char>) -> Seq<char> {
    "{\"jsonrpc\":\"2.0\",\"id\":"@ + decimal(id as nat) + ",\"method\":"@ + json_quoted(method)
        + ",\"params\":"@ + params + "}"@
}

/// JSON strings for the names, separated by commas.
pub open spec fn quoted_list(names: Seq<Seq<char>>) -> Seq<char>
    decreases names.len(),
{
    if names.len() == 0 {
        Seq::empty()
    } else if names.len() == 1 {
        json_quoted(names[0])
    } else {
        quoted_list(names.drop_last()) + ","@ + json_quoted(names.last())
    }
}

/// The parameters of a subscribe or unsubscribe request for these channels.
pub open spec fn channels_params(names: Seq<Seq<char>>) -> Seq<char> {
    "{\"channels\":["@ + quoted_list(names) + "]}"@
}

/// The parameters of a login request.
pub open spec fn login_params(token: Seq<char>, account: Seq<char>) -> Seq<char> {
    "{\"token\":"@ + json_quoted(token) + ",\"account\":"@ + json_quoted(account) + "}"@
}

/// The method that subscribes channels of a scope.
pub open spec fn subscribe_method(scope: RequestScope) -> Seq<char> {
    scope.spec_name() + "/subscribe"@
}

/// The method that unsubscribes channels of a scope.
pub open spec fn unsubscribe_method(scope: RequestScope) -> Seq<char> {
    scope.spec_name() + "/unsubscribe"@
}

/// One decimal digit as text.
fn digit_text(digit: u64) -> (text: &'static str)
    requires
        digit < 10,
    ensures
        text@ == seq![digit_char(digit as nat)],
{
    proof {
        reveal_strlit("0");
        reveal_strlit("1");
        reveal_strlit("2");
        reveal_strlit("3");
        reveal_strlit("4");
        reveal_strlit("5");
        reveal_strlit("6");
        reveal_strlit("7");
        reveal_strlit("8");
        reveal_strlit("9");
    }
    let text = if digit == 0 {
        "0"
    } else if digit == 1 {
        "1"
    } else if digit == 2 {
        "2"
    } else if digit == 3 {
        "3"
    } else if digit == 4 {
        "4"
    } else if digit == 5 {
        "5"
    } else if digit == 6 {
        "6"
    } else if digit == 7 {
        "7"
    } else if digit == 8 {
        "8"
    } else {
        "9"
    };
    assert(text@ =~= seq![digit_char(digit as nat)]);
    text
}

/// Writes a number in decimal.
pub fn decimal_text(n: u64) -> (text: String)
    ensures
        text@ == decimal(n as nat),
    decreases n,
{
    if n < 10 {
        digit_text(n).to_owned()
    } else {
        let mut text = decimal_text(n / 10);
        let last = digit_text(n % 10);
        text.append(last);
        assert(text@ =~= decimal(n as nat));
        text
    }
}

/// Writes the request with this id, method and parameters.
pub fn request_text(id: u64, method: &str, params: &str) -> (text: String)
    ensures
        text@ == request(id, method@, params@),
{
    let mut text = "{\"jsonrpc\":\"2.0\",\"id\":".to_owned();
    let id_text = decimal_text(id);
    text.append(id_text.as_str());
    text.append(",\"method\":");
    let quoted = json_quote(method);
    text.append(quoted.as_str());
    text.append(",\"params\":");
    text.append(params);
    text.append("}");
    text
}

/// Writes the parameters of a subscribe or unsubscribe request for these
/// channels.
pub fn channels_params_text(names: &Vec<String>) -> (text: String)
    ensures
        text@ == channels_params(names_of(names@)),
{
    let mut list = String::new();
    let mut i: usize = 0;
    while i < names.len()
        invariant
            i <= names.len(),
            list@ == quoted_list(names_of(names@).take(i as int)),
        decreases names.len() - i,
    {
        let ghost before = names_of(names@).take(i as int);
        let ghost after = names_of(names@).take(i + 1);
        if i > 0 {
            list.append(",");
        }
        let quoted = json_quote(names[i].as_str());
        list.append(quoted.as_str());
        proof {
            assert(after.drop_last() =~= before);
            assert(after.last() == names@[i as int]@);
            if i == 0 {
                assert(list@ =~= json_quoted(after[0]));
            } else {
                assert(list@ =~= quoted_list(before) + ","@ + json_quoted(after.last()));
            }
        }
        i += 1;
    }
    assert(names_of(names@).take(names.len() as int) =~= names_of(names@));
    let mut text = "{\"channels\":[".to_owned();
    text.append(list.as_str());
    text.append("]}");
    text
}

/// Writes the parameters of a login request.
pub fn login_params_text(token: &str, account: &str) -> (text: String)
    ensures
        text@ == login_params(token@, account@),
{
    let mut text = "{\"token\":".to_owned();
    let quoted_token = json_quote(token);
    text.append(quoted_token.as_str());
    text.append(",\"account\":");
    let quoted_account = json_quote(account);
    text.append(quoted_account.as_str());
    text.append("}");
    text
}

/// The call that subscribes these channels of a scope.
pub fn subscribe_call(scope: RequestScope, names: &Vec<String>) -> (call: RpcCall)
    ensures
        call.method@ == subscribe_method(scope),
        call.params@ == channels_params(names_of(names@)),
{
    let mut method = scope.name().to_owned();
    method.append("/subscribe");
    RpcCall { method, params: channels_params_text(names) }
}

/// The call that unsubscribes these channels of a scope.
pub fn unsubscribe_call(scope: RequestScope, names: &Vec<String>) -> (call: RpcCall)
    ensures
        call.method@ == unsubscribe_method(scope),
        call.params@ == channels_params(names_of(names@)),
{
    let mut method = scope.name().to_owned();
    method.append("/unsubscribe");
    RpcCall { method, params: channels_params_text(names) }
}

} // verus!
