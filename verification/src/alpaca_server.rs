//! The rules of the Alpaca web interface that do not depend on the web
//! server: the response envelope, the transaction numbers, the checks on a
//! request, and what each failed check is answered with.

use vstd::prelude::*;
use crate::device_state::DeviceState;
use crate::text::{decimal_digits, decimal_text, lowercase_of, same_text, to_lowercase};

verus! {

/// The error number for a device number that does not exist.
pub const INVALID_DEVICE_NUMBER: u32 = 1024;

/// The error number for a request without its form.
pub const MISSING_FORM_DATA: u32 = 1025;

/// The error number for an empty `Connected` parameter.
pub const EMPTY_CONNECTED: u32 = 1026;

/// The error number for a `Connected` parameter that is neither true nor false.
pub const INVALID_CONNECTED: u32 = 1027;

/// The speed of the serial line where a request names none.
pub const DEFAULT_BAUD_RATE: u32 = 115_200;

/// The version of the device interface that is served.
pub const INTERFACE_VERSION: u32 = 1;

/// The envelope of every answer of the interface.
#[derive(Debug, PartialEq, Eq)]
pub struct AlpacaResponse<T> {
    pub value: T,
    pub client_transaction_id: u32,
    pub server_transaction_id: u32,
    /// Zero for success.
    pub error_number: u32,
    /// Empty for success.
    pub error_message: String,
}

impl<T> AlpacaResponse<T> {
    /// The envelope of a successful answer.
    pub fn success(value: T, client_transaction_id: u32, server_transaction_id: u32) -> (r: Self)
        ensures
            r.value == value,
            r.client_transaction_id == client_transaction_id,
            r.server_transaction_id == server_transaction_id,
            r.error_number == 0,
            r.error_message@ == Seq::<char>::empty(),
    {
        AlpacaResponse {
            value,
            client_transaction_id,
            server_transaction_id,
            error_number: 0,
            error_message: String::new(),
        }
    }

    /// The envelope of a failed answer.
    pub fn error(
        value: T,
        client_transaction_id: u32,
        server_transaction_id: u32,
        error_number: u32,
        error_message: String,
    ) -> (r: Self)
        ensures
            r.value == value,
            r.client_transaction_id == client_transaction_id,
            r.server_transaction_id == server_transaction_id,
            r.error_number == error_number,
            r.error_message == error_message,
    {
        AlpacaResponse {
            value,
            client_transaction_id,
            server_transaction_id,
            error_number,
            error_message,
        }
    }

    /// What a client makes of an answer: the value, or the message of the
    /// failure where the error number is not zero.
    pub fn into_result(self) -> (r: Result<T, String>)
        ensures
            r == (if self.error_number != 0 {
                Err::<T, String>(self.error_message)
            } else {
                Ok::<T, String>(self.value)
            }),
    {
        if self.error_number != 0 {
            Err(self.error_message)
        } else {
            Ok(self.value)
        }
    }
}

/// Counts the answers of the server. Each answer gets the next number.
#[derive(Debug, Clone, Copy, PartialEq, Eq, Structural)]
pub struct TransactionCounter {
    pub last: u32,
}

/// The number after `n`, starting over at zero after the largest.
pub open spec fn next_transaction(n: u32) -> u32 {
    if n == u32::MAX {
        0
    } else {
        (n + 1) as u32
    }
}

impl TransactionCounter {
    /// A counter that has numbered no answer yet.
    pub fn new() -> (r: TransactionCounter)
        ensures
            r.last == 0,
    {
        TransactionCounter { last: 0 }
    }
}

/// The number for the next answer of the server: one more than the last, or
/// zero after the largest number.
pub fn next_server_transaction_id(counter: &mut TransactionCounter) -> (r: u32)
    ensures
        r == next_transaction(old(counter).last),
        final(counter).last == r,
{
    let next = if counter.last == u32::MAX {
        0
    } else {
        counter.last + 1
    };
    counter.last = next;
    next
}

/// The transaction number of a client that sent none is zero.
pub fn get_client_transaction_id(query_id: Option<u32>) -> (r: u32)
    ensures
        r == (match query_id {
            Some(id) => id,
            None => 0,
        }),
{
    match query_id {
        Some(id) => id,
        None => 0,
    }
}

/// A request that the interface turns down.
#[derive(Debug, Clone, PartialEq, Eq)]
pub struct Fault {
    pub error_number: u32,
    pub error_message: String,
}

/// The mathematical value of a [`Fault`].
pub ghost struct FaultView {
    pub error_number: u32,
    pub error_message: Seq<char>,
}

impl View for Fault {
    type V = FaultView;

    open spec fn view(&self) -> FaultView {
        FaultView { error_number: self.error_number, error_message: self.error_message@ }
    }
}

/// The fault for a device number other than zero.
pub open spec fn invalid_device(device_number: u32) -> FaultView {
    FaultView {
        error_number: INVALID_DEVICE_NUMBER,
        error_message: "Invalid device number: "@ + decimal_digits(device_number as nat),
    }
}

/// The view of an optional fault.
pub open spec fn fault_view(fault: Option<Fault>) -> Option<FaultView> {
    match fault {
        Some(f) => Some(f@),
        None => None,
    }
}

/// Only device zero exists: any other device number is a fault.
pub fn check_device_number(device_number: u32) -> (r: Option<Fault>)
    ensures
        fault_view(r) == (if device_number != 0 {
            Some(invalid_device(device_number))
        } else {
            None
        }),
{
    if device_number != 0 {
        let digits = decimal_text(device_number as u64);
        Some(
            Fault {
                error_number: INVALID_DEVICE_NUMBER,
                error_message: String::from_str("Invalid device number: ").concat(digits.as_str()),
            },
        )
    } else {
        None
    }
}

/// Answers whether the telescope is safe: a fault for a device number other
/// than zero; else safe only while the device is connected and parked.
pub fn get_is_safe(device_number: u32, state: &DeviceState) -> (r: Result<bool, Fault>)
    ensures
        checked_view(r) == (if device_number != 0 {
            Err::<bool, FaultView>(invalid_device(device_number))
        } else {
            Ok::<bool, FaultView>(state@.reports_safe())
        }),
{
    if let Some(fault) = check_device_number(device_number) {
        return Err(fault);
    }
    Ok(state.reports_safe())
}

/// Answers whether a remote client has declared itself connected.
pub fn get_connected(device_number: u32, state: &DeviceState) -> (r: Result<bool, Fault>)
    ensures
        checked_view(r) == (if device_number != 0 {
            Err::<bool, FaultView>(invalid_device(device_number))
        } else {
            Ok::<bool, FaultView>(state@.ascom_connected)
        }),
{
    if let Some(fault) = check_device_number(device_number) {
        return Err(fault);
    }
    Ok(state.ascom_connected)
}

/// The form of a request that sets the connected flag.
#[derive(Debug, Clone, PartialEq, Eq)]
pub struct ConnectedFormData {
    pub client_transaction_id: u32,
    pub connected: String,
}

/// The mathematical value of a [`ConnectedFormData`].
pub ghost struct ConnectedFormDataView {
    pub client_transaction_id: u32,
    pub connected: Seq<char>,
}

impl View for ConnectedFormData {
    type V = ConnectedFormDataView;

    open spec fn view(&self) -> ConnectedFormDataView {
        ConnectedFormDataView {
            client_transaction_id: self.client_transaction_id,
            connected: self.connected@,
        }
    }
}

/// The view of an optional form.
pub open spec fn form_view(form: Option<ConnectedFormData>) -> Option<ConnectedFormDataView> {
    match form {
        Some(f) => Some(f@),
        None => None,
    }
}

/// The answer to a request to connect or to disconnect.
#[derive(Debug, Clone, PartialEq, Eq)]
pub struct ConnectResponse {
    pub success: bool,
    pub message: String,
}

/// The mathematical value of a [`ConnectResponse`].
pub ghost struct ConnectResponseView {
    pub success: bool,
    pub message: Seq<char>,
}

impl View for ConnectResponse {
    type V = ConnectResponseView;

    open spec fn view(&self) -> ConnectResponseView {
        ConnectResponseView { success: self.success, message: self.message@ }
    }
}

/// The answer to a request that sends a command to the device.
#[derive(Debug, Clone, PartialEq, Eq)]
pub struct CommandResponse {
    pub success: bool,
    pub command: String,
    pub response: Option<String>,
    pub message: String,
}

/// The mathematical value of a [`CommandResponse`].
pub ghost struct CommandResponseView {
    pub success: bool,
    pub command: Seq<char>,
    pub response: Option<Seq<char>>,
    pub message: Seq<char>,
}

impl View for CommandResponse {
    type V = CommandResponseView;

    open spec fn view(&self) -> CommandResponseView {
        CommandResponseView {
            success: self.success,
            command: self.command@,
            response: crate::device_state::text_view(self.response),
            message: self.message@,
        }
    }
}

/// The requests that send a command to the device.
#[derive(Debug, Clone, Copy, PartialEq, Eq, Structural)]
pub enum DeviceAction {
    /// A command of the caller's choosing.
    Raw,
    Calibrate,
    SetPark,
    FactoryReset,
}

impl DeviceAction {
    /// The sentence for a command that succeeded.
    pub open spec fn done(self) -> Seq<char> {
        match self {
            DeviceAction::Raw => "Command executed successfully"@,
            DeviceAction::Calibrate => "Sensor calibration completed"@,
            DeviceAction::SetPark => "Park position set successfully"@,
            DeviceAction::FactoryReset => "Factory reset completed"@,
        }
    }

    /// The words before the failure of a command.
    pub open spec fn failed(self) -> Seq<char> {
        match self {
            DeviceAction::Raw => "Command failed: "@,
            DeviceAction::Calibrate => "Calibration failed: "@,
            DeviceAction::SetPark => "Set park failed: "@,
            DeviceAction::FactoryReset => "Factory reset failed: "@,
        }
    }
}

/// The answer to a request to connect, given how the attempt went.
pub open spec fn connect_response_spec(
    outcome: Result<Seq<char>, crate::errors::BridgeErrorView>,
    failed: Seq<char>,
) -> ConnectResponseView {
    match outcome {
        Ok(message) => ConnectResponseView { success: true, message },
        Err(error) => ConnectResponseView { success: false, message: failed + error.message() },
    }
}

/// The answer to a request that sent a command, given how the command went.
pub open spec fn command_response_spec(
    action: DeviceAction,
    command: Seq<char>,
    outcome: Result<Seq<char>, crate::errors::BridgeErrorView>,
) -> CommandResponseView {
    match outcome {
        Ok(response) => CommandResponseView {
            success: true,
            command,
            response: Some(response),
            message: action.done(),
        },
        Err(error) => CommandResponseView {
            success: false,
            command,
            response: None,
            message: action.failed() + error.message(),
        },
    }
}

/// Answers a request to connect: the sentence of the attempt, or the failure.
pub fn connect_response(outcome: Result<String, crate::errors::BridgeError>) -> (r: ConnectResponse)
    ensures
        r@ == connect_response_spec(
            crate::connection_manager::outcome_view(outcome),
            "Failed to connect: "@,
        ),
{
    match outcome {
        Ok(message) => ConnectResponse { success: true, message },
        Err(error) => {
            let detail = error.message();
            ConnectResponse {
                success: false,
                message: String::from_str("Failed to connect: ").concat(detail.as_str()),
            }
        },
    }
}

/// Answers a request to disconnect.
pub fn disconnect_response(outcome: Result<String, crate::errors::BridgeError>) -> (r:
    ConnectResponse)
    ensures
        r@ == connect_response_spec(
            crate::connection_manager::outcome_view(outcome),
            "Failed to disconnect: "@,
        ),
{
    match outcome {
        Ok(message) => ConnectResponse { success: true, message },
        Err(error) => {
            let detail = error.message();
            ConnectResponse {
                success: false,
                message: String::from_str("Failed to disconnect: ").concat(detail.as_str()),
            }
        },
    }
}

/// Answers a request that sent `command` to the device: the raw response and
/// a sentence where it succeeded, the failure where it did not.
pub fn command_response(
    action: DeviceAction,
    command: &str,
    outcome: Result<String, crate::errors::BridgeError>,
) -> (r: CommandResponse)
    ensures
        r@ == command_response_spec(
            action,
            command@,
            crate::connection_manager::outcome_view(outcome),
        ),
{
    match outcome {
        Ok(response) => {
            let message = match action {
                DeviceAction::Raw => String::from_str("Command executed successfully"),
                DeviceAction::Calibrate => String::from_str("Sensor calibration completed"),
                DeviceAction::SetPark => String::from_str("Park position set successfully"),
                DeviceAction::FactoryReset => String::from_str("Factory reset completed"),
            };
            CommandResponse {
                success: true,
                command: String::from_str(command),
                response: Some(response),
                message,
            }
        },
        Err(error) => {
            let detail = error.message();
            let prefix = match action {
                DeviceAction::Raw => String::from_str("Command failed: "),
                DeviceAction::Calibrate => String::from_str("Calibration failed: "),
                DeviceAction::SetPark => String::from_str("Set park failed: "),
                DeviceAction::FactoryReset => String::from_str("Factory reset failed: "),
            };
            CommandResponse {
                success: false,
                command: String::from_str(command),
                response: None,
                message: prefix.concat(detail.as_str()),
            }
        },
    }
}

/// What `urlencoding::decode` makes of a text: the text with its percent
/// escapes resolved, or `None` where the result is no UTF-8.
pub uninterp spec fn url_decoded(text: Seq<char>) -> Option<Seq<char>>;

/// Calls `urlencoding::decode`. The result depends on the text alone. A text
/// without a percent sign comes back as it is; a plus sign is never changed.
#[verifier::external_body]
fn url_decode(text: &str) -> (r: Option<String>)
    ensures
        crate::device_state::text_view(r) == url_decoded(text@),
        !text@.contains('%') ==> crate::device_state::text_view(r) == Some(text@),
{
    match urlencoding::decode(text) {
        Ok(decoded) => Some(decoded.into_owned()),
        Err(_) => None,
    }
}

/// The key names the transaction number of the client.
pub open spec fn is_transaction_key(key: Seq<char>) -> bool {
    key == "ClientTransactionID"@ || key == "clienttransactionid"@ || key
        == "ClientTransactionId"@ || key == "clientTransactionID"@
}

/// The key names the connected flag.
pub open spec fn is_connected_key(key: Seq<char>) -> bool {
    key == "Connected"@ || key == "connected"@
}

/// The transaction number that a decoded value writes; zero where it writes
/// none.
pub open spec fn transaction_number(value: Seq<char>) -> u32 {
    match crate::text::unsigned_of(value, u32::MAX as nat) {
        Some(n) => n as u32,
        None => 0,
    }
}

/// The form after one `key=value` pair was read. A pair without an equals
/// sign, with another key, or with a value that cannot be decoded changes
/// nothing.
pub open spec fn form_with_pair(form: ConnectedFormDataView, pair: Seq<char>)
    -> ConnectedFormDataView {
    match crate::text::position_from(pair, '=', 0) {
        None => form,
        Some(at) => {
            let key = pair.take(at);
            let value = pair.skip(at + 1);
            if is_transaction_key(key) {
                match url_decoded(value) {
                    Some(decoded) => ConnectedFormDataView {
                        client_transaction_id: transaction_number(decoded),
                        ..form
                    },
                    None => form,
                }
            } else if is_connected_key(key) {
                match url_decoded(value) {
                    Some(decoded) => ConnectedFormDataView { connected: decoded, ..form },
                    None => form,
                }
            } else {
                form
            }
        },
    }
}

/// The form after every pair of `body` was read in order; the pairs are
/// separated by `&`.
pub open spec fn form_with_pairs(form: ConnectedFormDataView, body: Seq<char>)
    -> ConnectedFormDataView
    decreases body.len(),
{
    match crate::text::position_from(body, '&', 0) {
        None => form_with_pair(form, body),
        Some(at) => if 0 <= at < body.len() {
            form_with_pairs(form_with_pair(form, body.take(at)), body.skip(at + 1))
        } else {
            form
        },
    }
}

/// The form that the body of a request holds: transaction number zero and an
/// empty flag, overwritten by each pair that names one of them.
pub open spec fn parsed_form(body: Seq<char>) -> ConnectedFormDataView {
    form_with_pairs(
        ConnectedFormDataView { client_transaction_id: 0, connected: Seq::empty() },
        body,
    )
}

fn is_one_of_four(key: &str, a: &str, b: &str, c: &str, d: &str) -> (r: bool)
    ensures
        r == (key@ == a@ || key@ == b@ || key@ == c@ || key@ == d@),
{
    same_text(key, a) || same_text(key, b) || same_text(key, c) || same_text(key, d)
}

/// Reads one `key=value` pair into the form.
pub fn read_form_pair(form: ConnectedFormData, pair: &str) -> (r: ConnectedFormData)
    ensures
        r@ == form_with_pair(form@, pair@),
{
    let chars = crate::text::chars_of(pair);
    let at = match crate::text::find_char(&chars, '=', 0) {
        Some(at) => at,
        None => {
            return form;
        },
    };
    proof {
        crate::text::lemma_position_from(chars@, '=', 0);
        assert(crate::text::position_from(chars@, '=', 0) == Some(at as int));
        assert(at < chars.len());
        assert(pair@.take(at as int) =~= pair@.subrange(0, at as int));
        assert(pair@.skip(at + 1) =~= pair@.subrange(at + 1, pair@.len() as int));
    }
    let key = pair.substring_char(0, at);
    let value = pair.substring_char(at + 1, chars.len());
    if is_one_of_four(
        key,
        "ClientTransactionID",
        "clienttransactionid",
        "ClientTransactionId",
        "clientTransactionID",
    ) {
        match url_decode(value) {
            Some(decoded) => {
                let number = match crate::text::parse_unsigned(decoded.as_str(), 0xffff_ffff) {
                    Some(n) => n as u32,
                    None => 0,
                };
                ConnectedFormData { client_transaction_id: number, connected: form.connected }
            },
            None => form,
        }
    } else if same_text(key, "Connected") || same_text(key, "connected") {
        match url_decode(value) {
            Some(decoded) => ConnectedFormData {
                client_transaction_id: form.client_transaction_id,
                connected: decoded,
            },
            None => form,
        }
    } else {
        form
    }
}

/// Reads the form out of the body of a request that sets the connected flag.
pub fn parse_connected_form(body: &str) -> (r: ConnectedFormData)
    ensures
        r@ == parsed_form(body@),
{
    let chars = crate::text::chars_of(body);
    let mut form = ConnectedFormData { client_transaction_id: 0, connected: String::new() };
    let mut start: usize = 0;
    assert(body@.skip(0) =~= body@);
    loop
        invariant
            start <= chars.len(),
            chars@ == body@,
            parsed_form(body@) == form_with_pairs(form@, body@.skip(start as int)),
        decreases chars.len() - start,
    {
        let ghost rest = body@.skip(start as int);
        let found = crate::text::find_char(&chars, '&', start);
        proof {
            crate::text::lemma_position_from(body@, '&', start as int);
            crate::text::lemma_position_from(rest, '&', 0);
            lemma_position_skips(body@, '&', start as int);
        }
        match found {
            None => {
                let pair = body.substring_char(start, chars.len());
                assert(pair@ =~= rest);
                return read_form_pair(form, pair);
            },
            Some(at) => {
                let pair = body.substring_char(start, at);
                proof {
                    assert(pair@ =~= rest.take(at - start));
                    assert(rest.skip(at - start + 1) =~= body@.skip(at + 1));
                }
                form = read_form_pair(form, pair);
                start = at + 1;
            },
        }
    }
}

proof fn lemma_position_skips(s: Seq<char>, c: char, from: int)
    requires
        0 <= from <= s.len(),
    ensures
        crate::text::position_from(s.skip(from), c, 0) == (match crate::text::position_from(
            s,
            c,
            from,
        ) {
            Some(i) => Some(i - from),
            None => None,
        }),
{
    lemma_position_shift(s, c, from, 0);
}

proof fn lemma_position_shift(s: Seq<char>, c: char, from: int, k: int)
    requires
        0 <= from <= s.len(),
        0 <= k,
    ensures
        crate::text::position_from(s.skip(from), c, k) == (match crate::text::position_from(
            s,
            c,
            from + k,
        ) {
            Some(i) => Some(i - from),
            None => None,
        }),
    decreases s.len() - from - k,
{
    if from + k < s.len() {
        assert(s.skip(from)[k] == s[from + k]);
        if s[from + k] != c {
            lemma_position_shift(s, c, from, k + 1);
        }
    }
}

/// What a `Connected` parameter that is already in lower case asks for.
pub open spec fn connected_value(lowered: Seq<char>) -> Result<bool, FaultView> {
    if lowered == "true"@ {
        Ok(true)
    } else if lowered == "false"@ {
        Ok(false)
    } else if lowered.len() == 0 {
        Err(FaultView { error_number: EMPTY_CONNECTED, error_message: "Empty Connected parameter"@ })
    } else {
        Err(
            FaultView {
                error_number: INVALID_CONNECTED,
                error_message: "Invalid Connected parameter - must be 'true' or 'false'"@,
            },
        )
    }
}

/// The view of a checked request.
pub open spec fn checked_view(result: Result<bool, Fault>) -> Result<bool, FaultView> {
    match result {
        Ok(flag) => Ok(flag),
        Err(fault) => Err(fault@),
    }
}

/// Reads a `Connected` parameter that is already in lower case.
pub fn connected_value_of_lowered(lowered: &str) -> (r: Result<bool, Fault>)
    ensures
        checked_view(r) == connected_value(lowered@),
{
    if same_text(lowered, "true") {
        Ok(true)
    } else if same_text(lowered, "false") {
        Ok(false)
    } else if lowered.unicode_len() == 0 {
        Err(
            Fault {
                error_number: EMPTY_CONNECTED,
                error_message: String::from_str("Empty Connected parameter"),
            },
        )
    } else {
        Err(
            Fault {
                error_number: INVALID_CONNECTED,
                error_message: String::from_str(
                    "Invalid Connected parameter - must be 'true' or 'false'",
                ),
            },
        )
    }
}

/// What a request to set the connected flag comes to: the checks are made in
/// the order device number, form, parameter, and the first that fails decides.
pub open spec fn put_connected_spec(device_number: u32, form: Option<ConnectedFormDataView>)
    -> Result<bool, FaultView> {
    put_connected_lowered(
        device_number,
        form,
        match form {
            Some(data) => lowercase_of(data.connected),
            None => Seq::empty(),
        },
    )
}

/// What a request to set the connected flag comes to, given the `Connected`
/// parameter of its form in lower case.
pub open spec fn put_connected_lowered(
    device_number: u32,
    form: Option<ConnectedFormDataView>,
    lowered: Seq<char>,
) -> Result<bool, FaultView> {
    if device_number != 0 {
        Err(invalid_device(device_number))
    } else {
        match form {
            None => Err(
                FaultView { error_number: MISSING_FORM_DATA, error_message: "Missing form data"@ },
            ),
            Some(_) => connected_value(lowered),
        }
    }
}

/// The transaction number to answer a request to set the connected flag
/// under: that of its form, zero without a form.
pub fn form_transaction_id(form: &Option<ConnectedFormData>) -> (r: u32)
    ensures
        r == (match form {
            Some(data) => data.client_transaction_id,
            None => 0,
        }),
{
    match form {
        Some(data) => data.client_transaction_id,
        None => 0,
    }
}

/// Checks a request to set the connected flag and, where it passes, sets the
/// flag in the device state. The hardware connection is not touched.
pub fn put_connected(device_number: u32, form: &Option<ConnectedFormData>, state: &mut DeviceState)
    -> (r: Result<bool, Fault>)
    ensures
        checked_view(r) == put_connected_spec(device_number, form_view(*form)),
        form matches Some(data) ==> (crate::text::is_ascii_text(data.connected@) ==> checked_view(r)
            == put_connected_lowered(
            device_number,
            form_view(*form),
            crate::text::ascii_lowercase(data.connected@),
        )),
        final(state)@ == (match r {
            Ok(flag) => crate::device_state::DeviceStateView {
                ascom_connected: flag,
                ..old(state)@
            },
            Err(_) => old(state)@,
        }),
{
    if let Some(fault) = check_device_number(device_number) {
        return Err(fault);
    }
    let data = match form {
        Some(data) => data,
        None => {
            return Err(
                Fault {
                    error_number: MISSING_FORM_DATA,
                    error_message: String::from_str("Missing form data"),
                },
            );
        },
    };
    let lowered = to_lowercase(data.connected.as_str());
    let flag = connected_value_of_lowered(lowered.as_str())?;
    state.ascom_connected = flag;
    Ok(flag)
}

} // verus!
