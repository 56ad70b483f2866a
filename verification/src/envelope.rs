//! The envelope projector: fetched messages, and the text that stands for
//! their envelopes.

use core::str::Utf8Error;
use vstd::prelude::*;
use vstd::string::StringExecFns;
use vstd::string::StringSliceAdditionalSpecFns;
use vstd::utf8::decode_utf8;
use vstd::utf8::encode_utf8_decode_utf8;
use vstd::utf8::valid_utf8;

verus! {

/// The error of `core::str::from_utf8`: the bytes are no UTF-8.
#[verifier::external_type_specification]
#[verifier::external_body]
pub struct ExUtf8Error(Utf8Error);

/// `core::str::from_utf8` succeeds on exactly the byte sequences that are
/// valid UTF-8, and the string slice it then returns is made of the bytes it
/// was given.
pub assume_specification<'a>[ core::str::from_utf8 ](v: &'a [u8]) -> (res: Result<
    &'a str,
    Utf8Error,
>)
    ensures
        res is Ok <==> valid_utf8(v@),
        res matches Ok(s) ==> s.spec_bytes() == v@,
;

/// The text of a field that may be missing: the characters that its bytes
/// encode, where there are bytes and they are UTF-8.
pub open spec fn decoded(field: Option<Seq<u8>>) -> Option<Seq<char>> {
    match field {
        Some(bytes) => if valid_utf8(bytes) {
            Some(decode_utf8(bytes))
        } else {
            None
        },
        None => None,
    }
}

/// What an address holds: each of its four parts is there or not.
pub struct AddressView {
    pub name: Option<Seq<u8>>,
    pub adl: Option<Seq<u8>>,
    pub mailbox: Option<Seq<u8>>,
    pub host: Option<Seq<u8>>,
}

/// A mail address in four parts: display name, source route, mailbox and
/// host, each of which may be missing.
#[derive(Debug, Clone, PartialEq, Eq)]
pub struct Address {
    pub name: Option<Vec<u8>>,
    pub adl: Option<Vec<u8>>,
    pub mailbox: Option<Vec<u8>>,
    pub host: Option<Vec<u8>>,
}

impl View for Address {
    type V = AddressView;

    open spec fn view(&self) -> AddressView {
        AddressView {
            name: field_view(self.name),
            adl: field_view(self.adl),
            mailbox: field_view(self.mailbox),
            host: field_view(self.host),
        }
    }
}

/// The views of a sequence of addresses, in their order.
pub open spec fn address_views(addresses: Seq<Address>) -> Seq<AddressView> {
    addresses.map_values(|address: Address| address@)
}

/// The view of an address list that may be missing.
pub open spec fn address_list_view(list: Option<Vec<Address>>) -> Option<Seq<AddressView>> {
    match list {
        Some(addresses) => Some(address_views(addresses@)),
        None => None,
    }
}

/// What an envelope holds.
pub struct EnvelopeView {
    pub date: Option<Seq<u8>>,
    pub subject: Option<Seq<u8>>,
    pub from: Option<Seq<AddressView>>,
    pub to: Option<Seq<AddressView>>,
    pub cc: Option<Seq<AddressView>>,
    pub bcc: Option<Seq<AddressView>>,
}

/// The header summary of a message.
#[derive(Debug, Clone, PartialEq, Eq)]
pub struct Envelope {
    pub date: Option<Vec<u8>>,
    pub subject: Option<Vec<u8>>,
    pub from: Option<Vec<Address>>,
    pub to: Option<Vec<Address>>,
    pub cc: Option<Vec<Address>>,
    pub bcc: Option<Vec<Address>>,
}

impl View for Envelope {
    type V = EnvelopeView;

    open spec fn view(&self) -> EnvelopeView {
        EnvelopeView {
            date: field_view(self.date),
            subject: field_view(self.subject),
            from: address_list_view(self.from),
            to: address_list_view(self.to),
            cc: address_list_view(self.cc),
            bcc: address_list_view(self.bcc),
        }
    }
}

/// What a fetched message holds.
pub struct MessageView {
    pub envelope: Option<EnvelopeView>,
}

/// A fetched message; its envelope may be missing.
#[derive(Debug, Clone, PartialEq, Eq)]
pub struct Message {
    pub envelope: Option<Envelope>,
}

impl View for Message {
    type V = MessageView;

    open spec fn view(&self) -> MessageView {
        MessageView {
            envelope: match self.envelope {
                Some(envelope) => Some(envelope@),
                None => None,
            },
        }
    }
}

/// The views of a batch of messages, in their order.
pub open spec fn message_views(messages: Seq<Message>) -> Seq<MessageView> {
    messages.map_values(|message: Message| message@)
}

/// The views of an optional byte field.
pub open spec fn field_view(field: Option<Vec<u8>>) -> Option<Seq<u8>> {
    match field {
        Some(bytes) => Some(bytes@),
        None => None,
    }
}

/// Decodes a field that may be missing. Bytes that are no UTF-8 count as a
/// missing field.
pub fn decode_field(field: &Option<Vec<u8>>) -> (text: Option<&str>)
    ensures
        text is Some == decoded(field_view(*field)) is Some,
        text matches Some(s) ==> decoded(field_view(*field)) == Some(s@),
{
    match field {
        Some(bytes) => match core::str::from_utf8(bytes.as_slice()) {
            Ok(s) => {
                proof {
                    encode_utf8_decode_utf8(s@);
                }
                Some(s)
            },
            Err(_) => None,
        },
        None => None,
    }
}

/// One part of an address: its text between double quotes, or `NIL` where
/// it is missing or no UTF-8.
pub open spec fn part_text(part: Option<Seq<u8>>) -> Seq<char> {
    match decoded(part) {
        Some(text) => "\""@ + text + "\""@,
        None => "NIL"@,
    }
}

/// An address: its four parts between round brackets, a space between them.
pub open spec fn address_text(address: AddressView) -> Seq<char> {
    "("@ + part_text(address.name) + " "@ + part_text(address.adl) + " "@ + part_text(
        address.mailbox,
    ) + " "@ + part_text(address.host) + ")"@
}

/// The addresses of a list one after the other, each followed by a comma
/// and a space.
pub open spec fn addresses_text(addresses: Seq<AddressView>) -> Seq<char>
    decreases addresses.len(),
{
    if addresses.len() == 0 {
        Seq::empty()
    } else {
        addresses_text(addresses.drop_last()) + address_text(addresses.last()) + ", "@
    }
}

/// The line of an address field: its head, its addresses, a line feed.
pub open spec fn address_line(head: Seq<char>, addresses: Seq<AddressView>) -> Seq<char> {
    head + addresses_text(addresses) + "\n"@
}

/// The line of an address field that may be missing: nothing where it is.
pub open spec fn address_field_text(head: Seq<char>, list: Option<Seq<AddressView>>) -> Seq<
    char,
> {
    match list {
        Some(addresses) => address_line(head, addresses),
        None => Seq::empty(),
    }
}

/// The line of a text field: its head, its text, a line feed; nothing where
/// the field is missing or no UTF-8.
pub open spec fn text_field_text(head: Seq<char>, field: Option<Seq<u8>>) -> Seq<char> {
    match decoded(field) {
        Some(text) => head + text + "\n"@,
        None => Seq::empty(),
    }
}

/// The block of an envelope: a separator line, then the lines of `From`,
/// `To`, `Cc` and `Bcc` that are there, then those of `Date` and `Subject`.
pub open spec fn envelope_text(envelope: EnvelopeView) -> Seq<char> {
    "---\n"@ + address_field_text("From: "@, envelope.from) + address_field_text(
        "To: "@,
        envelope.to,
    ) + address_field_text("Cc: "@, envelope.cc) + address_field_text("Bcc: "@, envelope.bcc)
        + text_field_text("Date: "@, envelope.date) + text_field_text(
        "Subject: "@,
        envelope.subject,
    )
}

/// The text of a message: the block of its envelope, nothing without one.
pub open spec fn message_text(message: MessageView) -> Seq<char> {
    match message.envelope {
        Some(envelope) => envelope_text(envelope),
        None => Seq::empty(),
    }
}

/// The text of a batch: the texts of its messages in their order.
pub open spec fn messages_text(messages: Seq<MessageView>) -> Seq<char>
    decreases messages.len(),
{
    if messages.len() == 0 {
        Seq::empty()
    } else {
        messages_text(messages.drop_last()) + message_text(messages.last())
    }
}

/// Appends one part of an address to `out`.
fn push_part(out: &mut String, part: &Option<Vec<u8>>)
    ensures
        final(out)@ == old(out)@ + part_text(field_view(*part)),
{
    match decode_field(part) {
        Some(text) => {
            out.append("\"");
            out.append(text);
            out.append("\"");
        },
        None => {
            out.append("NIL");
        },
    }
}

/// Renders one address, as `(NIL NIL "mailbox" "host")`.
pub fn render_address(address: &Address) -> (text: String)
    ensures
        text@ == address_text(address@),
{
    let mut out = String::from_str("(");
    push_part(&mut out, &address.name);
    out.append(" ");
    push_part(&mut out, &address.adl);
    out.append(" ");
    push_part(&mut out, &address.mailbox);
    out.append(" ");
    push_part(&mut out, &address.host);
    out.append(")");
    out
}

/// Renders the line of an address field: `head`, then each address followed
/// by a comma and a space, then a line feed.
pub fn render_addresses(head: &str, addresses: &Vec<Address>) -> (line: String)
    ensures
        line@ == address_line(head@, address_views(addresses@)),
{
    let mut out = String::from_str(head);
    let ghost views = address_views(addresses@);
    let mut i: usize = 0;
    while i < addresses.len()
        invariant
            i <= addresses.len(),
            views == address_views(addresses@),
            out@ == head@ + addresses_text(views.take(i as int)),
        decreases addresses.len() - i,
    {
        let one = render_address(&addresses[i]);
        proof {
            assert(views.take(i + 1).drop_last() == views.take(i as int));
            assert(views.take(i + 1).last() == addresses@[i as int]@);
        }
        out.append(one.as_str());
        out.append(", ");
        i = i + 1;
    }
    proof {
        assert(views.take(i as int) == views);
    }
    out.append("\n");
    out
}

/// Appends the line of an address field that may be missing.
fn push_address_field(out: &mut String, head: &str, list: &Option<Vec<Address>>)
    ensures
        final(out)@ == old(out)@ + address_field_text(head@, address_list_view(*list)),
{
    if let Some(addresses) = list {
        let line = render_addresses(head, addresses);
        out.append(line.as_str());
    }
}

/// Appends the line of a text field that may be missing.
fn push_text_field(out: &mut String, head: &str, field: &Option<Vec<u8>>)
    ensures
        final(out)@ == old(out)@ + text_field_text(head@, field_view(*field)),
{
    if let Some(text) = decode_field(field) {
        out.append(head);
        out.append(text);
        out.append("\n");
    }
}

/// Renders the block of an envelope.
pub fn render_envelope(envelope: &Envelope) -> (text: String)
    ensures
        text@ == envelope_text(envelope@),
{
    let mut out = String::from_str("---\n");
    push_address_field(&mut out, "From: ", &envelope.from);
    push_address_field(&mut out, "To: ", &envelope.to);
    push_address_field(&mut out, "Cc: ", &envelope.cc);
    push_address_field(&mut out, "Bcc: ", &envelope.bcc);
    push_text_field(&mut out, "Date: ", &envelope.date);
    push_text_field(&mut out, "Subject: ", &envelope.subject);
    out
}

/// Renders a batch of fetched messages: the block of each message that has
/// an envelope, in the order of the batch.
pub fn render_messages(messages: &Vec<Message>) -> (text: String)
    ensures
        text@ == messages_text(message_views(messages@)),
{
    let mut out = String::new();
    let ghost views = message_views(messages@);
    let mut i: usize = 0;
    while i < messages.len()
        invariant
            i <= messages.len(),
            views == message_views(messages@),
            out@ == messages_text(views.take(i as int)),
        decreases messages.len() - i,
    {
        proof {
            assert(views.take(i + 1).drop_last() == views.take(i as int));
            assert(views.take(i + 1).last() == messages@[i as int]@);
        }
        if let Some(envelope) = &messages[i].envelope {
            let block = render_envelope(envelope);
            out.append(block.as_str());
        }
        i = i + 1;
    }
    proof {
        assert(views.take(i as int) == views);
    }
    out
}

} // verus!
