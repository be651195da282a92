//! The CDC-ECM protocol layer: which descriptors the function announces, the
//! string that carries its MAC address, and what it answers to the control
//! requests of its class.
//!
//! The class works on plain values. Interface numbers, endpoint addresses and
//! the string index are the numbers that the bus allocator handed out; a
//! control request is the content of a SETUP packet. What the class decides
//! comes back as values too: a list of descriptors to write, a response to
//! give.

use vstd::prelude::*;
use vstd::string::StringSliceAdditionalSpecFns;
use vstd::utf8::{
    decode_utf8, encode_utf8, encode_utf8_decode_utf8, encode_utf8_valid_utf8, is_ascii_chars,
    is_ascii_chars_encode_utf8, valid_utf8,
};
use crate::{EP_PKG_SIZE, USB_CLASS_CDC};
use core::str::Utf8Error;
use hex::FromHexError;

verus! {

/// Interface class of the data interface.
pub const USB_CLASS_CDC_DATA: u8 = 0x0a;

pub const CDC_SUBCLASS_ECM: u8 = 0x06;

pub const CDC_PROTOCOL_NONE: u8 = 0x00;

/// Descriptor type of the class-specific interface descriptors.
pub const CS_INTERFACE: u8 = 0x24;

pub const CDC_TYPE_HEADER: u8 = 0x00;

pub const CDC_TYPE_UNION: u8 = 0x06;

pub const ETHERNET_FUNCTIONAL_DESCRIPTOR: u8 = 0x0F;

// CDC Class requests
pub const REQ_SEND_ENCAPSULATED_COMMAND: u8 = 0x00;

pub const REQ_GET_ENCAPSULATED_COMMAND: u8 = 0x01;

// CDC ECM Class requests Section 6.2 in CDC ECM spec
pub const SET_ETHERNET_MULTICAST_FILTERS: u8 = 0x40;

pub const SET_ETHERNET_POWER_MANAGEMENT_PATTERN_FILTER: u8 = 0x41;

pub const GET_ETHERNET_POWER_MANAGEMENT_PATTERN_FILTER: u8 = 0x42;

pub const SET_ETHERNET_PACKET_FILTER: u8 = 0x43;

pub const GET_ETHERNET_STATISTICS: u8 = 0x44;

/// Maximum packet size of the interrupt endpoint of the communications
/// interface.
pub const COMM_EP_PKG_SIZE: u16 = 8;

/// Poll interval of the interrupt endpoint of the communications interface.
pub const COMM_EP_INTERVAL: u8 = 255;

/// Direction of USB traffic, seen from the host.
#[derive(Clone, Copy, Debug, PartialEq, Eq, Structural)]
pub enum UsbDirection {
    /// Host to device
    Out,
    /// Device to host
    In,
}

/// Transfer type of an endpoint.
#[derive(Clone, Copy, Debug, PartialEq, Eq, Structural)]
pub enum EndpointType {
    Control,
    Isochronous,
    Bulk,
    Interrupt,
}

/// An endpoint as its descriptor shows it.
#[derive(Clone, Copy, Debug, PartialEq, Eq, Structural)]
pub struct Endpoint {
    /// Address that the allocator gave
    pub address: u8,
    pub direction: UsbDirection,
    pub ep_type: EndpointType,
    pub max_packet_size: u16,
    pub interval: u8,
}

/// What the bus allocator handed out to the class, in the order in which the
/// class asks for it.
#[derive(Clone, Copy, Debug, PartialEq, Eq, Structural)]
pub struct Allocation {
    /// Number of the communications interface
    pub comm_if: u8,
    /// Address of its interrupt IN endpoint
    pub comm_ep: u8,
    /// Number of the data interface
    pub data_if: u8,
    /// Address of the bulk OUT endpoint, which the device reads from
    pub read_ep: u8,
    /// Address of the bulk IN endpoint, which the device writes to
    pub write_ep: u8,
    /// Index of the string that carries the MAC address
    pub mac_string_index: u8,
}

/// Type of a control request.
#[derive(Clone, Copy, Debug, PartialEq, Eq, Structural)]
pub enum RequestType {
    Standard,
    Class,
    Vendor,
    Reserved,
}

/// Recipient of a control request.
#[derive(Clone, Copy, Debug, PartialEq, Eq, Structural)]
pub enum Recipient {
    Device,
    Interface,
    Endpoint,
    Other,
    Reserved,
}

/// A control request, as read from a SETUP packet.
#[derive(Clone, Copy, Debug, PartialEq, Eq, Structural)]
pub struct Request {
    pub direction: UsbDirection,
    pub request_type: RequestType,
    pub recipient: Recipient,
    /// Request code
    pub request: u8,
    pub value: u16,
    /// For a request to an interface, the interface's number
    pub index: u16,
    pub length: u16,
}

/// The feature that a rejected request asked for.
#[derive(Clone, Copy, Debug, PartialEq, Eq, Structural)]
pub enum Unsupported {
    EncapsulatedCommand,
    MulticastFilters,
    PowerManagement,
    PacketFilter,
    Statistics,
    /// A request code that means nothing in this direction
    Unknown,
}

/// What the class does with a control request.
#[derive(Clone, Copy, Debug, PartialEq, Eq, Structural)]
pub enum ControlResponse {
    /// The request is not for this class: it is left for whoever it is for.
    Ignored,
    /// The request is for this class, and is answered with a stall.
    Rejected(Unsupported),
}

/// One descriptor of the configuration.
#[derive(Debug)]
pub enum Descriptor {
    InterfaceAssociation {
        first_interface: u8,
        interface_count: u8,
        function_class: u8,
        function_sub_class: u8,
        function_protocol: u8,
    },
    Interface { number: u8, interface_class: u8, interface_sub_class: u8, interface_protocol: u8 },
    /// A descriptor of type `descriptor_type` whose body is `payload`
    ClassSpecific { descriptor_type: u8, payload: Vec<u8> },
    Endpoint(Endpoint),
}

/// A [`Descriptor`] in specifications.
pub enum DescriptorSpec {
    InterfaceAssociation {
        first_interface: u8,
        interface_count: u8,
        function_class: u8,
        function_sub_class: u8,
        function_protocol: u8,
    },
    Interface { number: u8, interface_class: u8, interface_sub_class: u8, interface_protocol: u8 },
    ClassSpecific { descriptor_type: u8, payload: Seq<u8> },
    Endpoint(Endpoint),
}

impl View for Descriptor {
    type V = DescriptorSpec;

    open spec fn view(&self) -> DescriptorSpec {
        match *self {
            Descriptor::InterfaceAssociation {
                first_interface,
                interface_count,
                function_class,
                function_sub_class,
                function_protocol,
            } => DescriptorSpec::InterfaceAssociation {
                first_interface,
                interface_count,
                function_class,
                function_sub_class,
                function_protocol,
            },
            Descriptor::Interface {
                number,
                interface_class,
                interface_sub_class,
                interface_protocol,
            } => DescriptorSpec::Interface {
                number,
                interface_class,
                interface_sub_class,
                interface_protocol,
            },
            Descriptor::ClassSpecific { descriptor_type, payload } => DescriptorSpec::ClassSpecific {
                descriptor_type,
                payload: payload@,
            },
            Descriptor::Endpoint(endpoint) => DescriptorSpec::Endpoint(endpoint),
        }
    }
}

/// The ASCII code of the lowercase hexadecimal digit for `nibble`.
pub open spec fn hex_digit(nibble: int) -> u8 {
    if nibble < 10 {
        (0x30 + nibble) as u8
    } else {
        (0x57 + nibble) as u8
    }
}

/// `bytes` in lowercase hexadecimal: two digits for each byte, the high
/// nibble first.
pub open spec fn hex_lower(bytes: Seq<u8>) -> Seq<u8> {
    Seq::new(
        2 * bytes.len(),
        |i: int|
            if i % 2 == 0 {
                hex_digit(bytes[i / 2] as int / 16)
            } else {
                hex_digit(bytes[i / 2] as int % 16)
            },
    )
}

/// The characters that the ASCII codes `bytes` stand for.
pub open spec fn ascii_chars(bytes: Seq<u8>) -> Seq<char> {
    Seq::new(bytes.len(), |i: int| bytes[i] as char)
}

/// `hex::FromHexError`, as a type whose inside the verifier does not see.
#[verifier::external_type_specification]
#[verifier::external_body]
pub struct ExFromHexError(FromHexError);

/// `core::str::Utf8Error`, as a type whose inside the verifier does not see.
#[verifier::external_type_specification]
#[verifier::external_body]
pub struct ExUtf8Error(Utf8Error);

/// `hex::encode_to_slice`: fails, and leaves `output` alone, unless `output`
/// is exactly twice as long as `input`; else fills it with the lowercase
/// hexadecimal digits of `input`.
#[verifier::external_body]
fn encode_to_slice(input: &[u8], output: &mut [u8]) -> (result: Result<(), FromHexError>)
    ensures
        result is Ok <==> old(output)@.len() == 2 * input@.len(),
        result is Ok ==> final(output)@ == hex_lower(input@),
        result is Err ==> final(output)@ == old(output)@,
{
    hex::encode_to_slice(input, output)
}

/// `core::str::from_utf8`: succeeds exactly on valid UTF-8, with a string
/// slice over the same bytes.
#[verifier::external_body]
fn str_from_utf8(bytes: &[u8]) -> (result: Result<&str, Utf8Error>)
    ensures
        result is Ok <==> valid_utf8(bytes@),
        result matches Ok(s) ==> s.spec_bytes() == bytes@,
{
    core::str::from_utf8(bytes)
}

/// ASCII codes are valid UTF-8, and decode to the characters they stand for.
proof fn lemma_ascii_is_utf8(bytes: Seq<u8>)
    requires
        forall|i: int| 0 <= i < bytes.len() ==> bytes[i] < 0x80,
    ensures
        valid_utf8(bytes),
        decode_utf8(bytes) == ascii_chars(bytes),
{
    let chars = ascii_chars(bytes);
    assert(is_ascii_chars(chars));
    is_ascii_chars_encode_utf8(chars);
    assert(encode_utf8(chars) =~= bytes);
    encode_utf8_valid_utf8(chars);
    encode_utf8_decode_utf8(chars);
}

/// Hexadecimal digits are ASCII.
proof fn lemma_hex_is_ascii(bytes: Seq<u8>)
    ensures
        hex_lower(bytes).len() == 2 * bytes.len(),
        forall|i: int| 0 <= i < hex_lower(bytes).len() ==> hex_lower(bytes)[i] < 0x80,
{
}

/// What an instance of the class is made of.
pub struct EcmState {
    pub comm_if: u8,
    pub comm_ep: Endpoint,
    pub data_if: u8,
    pub read_ep: Endpoint,
    pub write_ep: Endpoint,
    pub mac_string_index: u8,
    /// The MAC address as ASCII text
    pub mac_string: Seq<u8>,
}

impl EcmState {
    /// The class for what the allocator handed out and a MAC address: an
    /// interrupt IN endpoint for the communications interface, one bulk
    /// endpoint in each direction for the data interface, and the address as
    /// twelve lowercase hexadecimal digits.
    pub open spec fn new(alloc: Allocation, mac_addr: Seq<u8>) -> EcmState {
        EcmState {
            comm_if: alloc.comm_if,
            comm_ep: Endpoint {
                address: alloc.comm_ep,
                direction: UsbDirection::In,
                ep_type: EndpointType::Interrupt,
                max_packet_size: COMM_EP_PKG_SIZE,
                interval: COMM_EP_INTERVAL,
            },
            data_if: alloc.data_if,
            read_ep: Endpoint {
                address: alloc.read_ep,
                direction: UsbDirection::Out,
                ep_type: EndpointType::Bulk,
                max_packet_size: EP_PKG_SIZE,
                interval: 0,
            },
            write_ep: Endpoint {
                address: alloc.write_ep,
                direction: UsbDirection::In,
                ep_type: EndpointType::Bulk,
                max_packet_size: EP_PKG_SIZE,
                interval: 0,
            },
            mac_string_index: alloc.mac_string_index,
            mac_string: hex_lower(mac_addr),
        }
    }

    /// A request is for this class if it is a class request to an interface,
    /// and the interface is the communications interface.
    pub open spec fn is_for_me(self, req: Request) -> bool {
        &&& req.request_type == RequestType::Class
        &&& req.recipient == Recipient::Interface
        &&& req.index == self.comm_if as u16
    }

    /// The feature behind a request code of the device-to-host direction.
    pub open spec fn feature_in(code: u8) -> Unsupported {
        if code == REQ_GET_ENCAPSULATED_COMMAND {
            Unsupported::EncapsulatedCommand
        } else if code == GET_ETHERNET_POWER_MANAGEMENT_PATTERN_FILTER {
            Unsupported::PowerManagement
        } else if code == GET_ETHERNET_STATISTICS {
            Unsupported::Statistics
        } else {
            Unsupported::Unknown
        }
    }

    /// The feature behind a request code of the host-to-device direction.
    pub open spec fn feature_out(code: u8) -> Unsupported {
        if code == REQ_SEND_ENCAPSULATED_COMMAND {
            Unsupported::EncapsulatedCommand
        } else if code == SET_ETHERNET_MULTICAST_FILTERS {
            Unsupported::MulticastFilters
        } else if code == SET_ETHERNET_PACKET_FILTER {
            Unsupported::PacketFilter
        } else if code == SET_ETHERNET_POWER_MANAGEMENT_PATTERN_FILTER {
            Unsupported::PowerManagement
        } else {
            Unsupported::Unknown
        }
    }

    /// Requests for someone else are ignored, all others rejected.
    pub open spec fn control_in(self, req: Request) -> ControlResponse {
        if self.is_for_me(req) {
            ControlResponse::Rejected(Self::feature_in(req.request))
        } else {
            ControlResponse::Ignored
        }
    }

    /// Requests for someone else are ignored, all others rejected.
    pub open spec fn control_out(self, req: Request) -> ControlResponse {
        if self.is_for_me(req) {
            ControlResponse::Rejected(Self::feature_out(req.request))
        } else {
            ControlResponse::Ignored
        }
    }

    /// Body of the header functional descriptor: CDC release 1.10.
    pub open spec fn header_descriptor() -> Seq<u8> {
        seq![CDC_TYPE_HEADER, 0x10, 0x01]
    }

    /// Body of the union functional descriptor: the communications interface
    /// controls, the data interface is subordinate.
    pub open spec fn union_descriptor(self) -> Seq<u8> {
        seq![CDC_TYPE_UNION, self.comm_if, self.data_if]
    }

    /// Body of the ethernet functional descriptor: the index of the MAC
    /// string, no statistics, a maximum segment size of 1514 (low byte
    /// first), no multicast filters, no power filters.
    pub open spec fn ethernet_descriptor(self) -> Seq<u8> {
        seq![
            ETHERNET_FUNCTIONAL_DESCRIPTOR,
            self.mac_string_index,
            0x00,
            0x00,
            0x00,
            0x00,
            0xEA,
            0x05,
            0x00,
            0x00,
            0x00,
        ]
    }

    /// The descriptors of the function, in the order in which they are
    /// written.
    pub open spec fn descriptors(self) -> Seq<DescriptorSpec> {
        seq![
            DescriptorSpec::InterfaceAssociation {
                first_interface: self.comm_if,
                interface_count: 2,
                function_class: USB_CLASS_CDC,
                function_sub_class: CDC_SUBCLASS_ECM,
                function_protocol: CDC_PROTOCOL_NONE,
            },
            DescriptorSpec::Interface {
                number: self.comm_if,
                interface_class: USB_CLASS_CDC,
                interface_sub_class: CDC_SUBCLASS_ECM,
                interface_protocol: CDC_PROTOCOL_NONE,
            },
            DescriptorSpec::ClassSpecific {
                descriptor_type: CS_INTERFACE,
                payload: Self::header_descriptor(),
            },
            DescriptorSpec::ClassSpecific {
                descriptor_type: CS_INTERFACE,
                payload: self.union_descriptor(),
            },
            DescriptorSpec::ClassSpecific {
                descriptor_type: CS_INTERFACE,
                payload: self.ethernet_descriptor(),
            },
            DescriptorSpec::Endpoint(self.comm_ep),
            DescriptorSpec::Interface {
                number: self.data_if,
                interface_class: USB_CLASS_CDC_DATA,
                interface_sub_class: 0x00,
                interface_protocol: 0x00,
            },
            DescriptorSpec::Endpoint(self.write_ep),
            DescriptorSpec::Endpoint(self.read_ep),
        ]
    }
}

/// The descriptors of `list`, as specifications see them.
pub open spec fn descriptor_views(list: Seq<Descriptor>) -> Seq<DescriptorSpec> {
    Seq::new(list.len(), |i: int| list[i]@)
}

/// The CDC-ECM class of one function.
#[derive(Debug)]
pub struct CdcEcmClass {
    comm_if: u8,
    comm_ep: Endpoint,
    data_if: u8,
    read_ep: Endpoint,
    write_ep: Endpoint,
    mac_string_index: u8,
    mac_string: [u8; 12],
}

impl View for CdcEcmClass {
    type V = EcmState;

    closed spec fn view(&self) -> EcmState {
        EcmState {
            comm_if: self.comm_if,
            comm_ep: self.comm_ep,
            data_if: self.data_if,
            read_ep: self.read_ep,
            write_ep: self.write_ep,
            mac_string_index: self.mac_string_index,
            mac_string: self.mac_string@,
        }
    }
}

impl CdcEcmClass {
    #[verifier::type_invariant]
    spec fn inv(&self) -> bool {
        forall|i: int| 0 <= i < 12 ==> self.mac_string@[i] < 0x80
    }

    /// Create e new [`CdcEcmClass`](CdcEcmClass)
    pub fn new(alloc: Allocation, mac_addr: &[u8; 6]) -> (class: Self)
        ensures
            class@ == EcmState::new(alloc, mac_addr@),
    {
        // Generat the mac string as a bytes sequence
        let mut mac_str = [0u8; 12];
        let encoded = encode_to_slice(mac_addr, &mut mac_str);
        proof {
            lemma_hex_is_ascii(mac_addr@);
        }
        match encoded {
            Ok(()) => Self {
                comm_if: alloc.comm_if,
                comm_ep: Endpoint {
                    address: alloc.comm_ep,
                    direction: UsbDirection::In,
                    ep_type: EndpointType::Interrupt,
                    max_packet_size: COMM_EP_PKG_SIZE,
                    interval: COMM_EP_INTERVAL,
                },
                data_if: alloc.data_if,
                read_ep: Endpoint {
                    address: alloc.read_ep,
                    direction: UsbDirection::Out,
                    ep_type: EndpointType::Bulk,
                    max_packet_size: EP_PKG_SIZE,
                    interval: 0,
                },
                write_ep: Endpoint {
                    address: alloc.write_ep,
                    direction: UsbDirection::In,
                    ep_type: EndpointType::Bulk,
                    max_packet_size: EP_PKG_SIZE,
                    interval: 0,
                },
                mac_string_index: alloc.mac_string_index,
                mac_string: mac_str,
            },
            Err(_) => vstd::pervasive::unreached(),
        }
    }

    /// Checks, whether this request was directed to this class
    pub fn is_for_me(&self, req: &Request) -> (mine: bool)
        ensures
            mine == self@.is_for_me(*req),
    {
        req.request_type == RequestType::Class && req.recipient == Recipient::Interface
            && req.index == self.comm_if as u16
    }

    /// Get the in endpoint
    pub fn get_write_ep(&self) -> (endpoint: &Endpoint)
        ensures
            *endpoint == self@.write_ep,
    {
        &self.write_ep
    }

    /// Get the out endpoint
    pub fn get_read_ep(&self) -> (endpoint: &Endpoint)
        ensures
            *endpoint == self@.read_ep,
    {
        &self.read_ep
    }

    /// The descriptors that the function adds to the configuration, in the
    /// order in which they are to be written.
    pub fn get_configuration_descriptors(&self) -> (list: Vec<Descriptor>)
        ensures
            list@.len() == 9,
            descriptor_views(list@) == self@.descriptors(),
    {
        let mut list: Vec<Descriptor> = Vec::new();

        list.push(
            Descriptor::InterfaceAssociation {
                first_interface: self.comm_if,
                interface_count: 2,
                function_class: USB_CLASS_CDC,
                function_sub_class: CDC_SUBCLASS_ECM,
                function_protocol: CDC_PROTOCOL_NONE,
            },
        );

        // Communications interface descriptor
        list.push(
            Descriptor::Interface {
                number: self.comm_if,
                interface_class: USB_CLASS_CDC,
                interface_sub_class: CDC_SUBCLASS_ECM,
                interface_protocol: CDC_PROTOCOL_NONE,
            },
        );

        // Header functional descriptor
        list.push(
            Descriptor::ClassSpecific {
                descriptor_type: CS_INTERFACE,
                payload: vec![
                    CDC_TYPE_HEADER,  // bDescriptorSubtype
                    0x10,
                    0x01,  // bcdCDC (1.10)
                ],
            },
        );

        // Union functional descriptor
        list.push(
            Descriptor::ClassSpecific {
                descriptor_type: CS_INTERFACE,
                payload: vec![
                    CDC_TYPE_UNION,  // bDescriptorSubtype
                    self.comm_if,  // bControlInterface
                    self.data_if,  // bSubordinateInterface
                ],
            },
        );

        // Ethernet functional descriptor
        list.push(
            Descriptor::ClassSpecific {
                descriptor_type: CS_INTERFACE,
                payload: vec![
                    ETHERNET_FUNCTIONAL_DESCRIPTOR,
                    // String index of the MAC address
                    self.mac_string_index,
                    // Ethernet Statstics capabilities (None)
                    0x00,
                    0x00,
                    0x00,
                    0x00,
                    // wMaxSegmentSize - 1514 bytes
                    0xEA,
                    0x05,
                    // wNumberMCFilters - No multicast filering
                    0x00,
                    0x00,
                    // bNumberPowerFilters - No Wakeup feature
                    0x00,
                ],
            },
        );

        // Communications endpoint descriptor
        list.push(Descriptor::Endpoint(self.comm_ep));

        // Data interface descriptor
        list.push(
            Descriptor::Interface {
                number: self.data_if,
                interface_class: USB_CLASS_CDC_DATA,
                interface_sub_class: 0x00,
                interface_protocol: 0x00,
            },
        );

        // Data IN endpoint descriptor
        list.push(Descriptor::Endpoint(self.write_ep));

        // Data OUT endpoint descriptor
        list.push(Descriptor::Endpoint(self.read_ep));

        proof {
            let views = descriptor_views(list@);
            let wanted = self@.descriptors();
            assert(list@[2]@->ClassSpecific_payload =~= EcmState::header_descriptor());
            assert(list@[3]@->ClassSpecific_payload =~= self@.union_descriptor());
            assert(list@[4]@->ClassSpecific_payload =~= self@.ethernet_descriptor());
            assert(views =~= wanted);
        }
        list
    }

    /// The string with index `index`: the MAC address as twelve lowercase
    /// hexadecimal digits where the index is that of the MAC string, no
    /// string for any other index.
    pub fn get_string(&self, index: u8, _lang_id: u16) -> (string: Option<&str>)
        ensures
            string is Some <==> index == self@.mac_string_index,
            string matches Some(s) ==> s@ == ascii_chars(self@.mac_string),
    {
        // If the mac address is requested, we return it as a str
        if index == self.mac_string_index {
            proof {
                use_type_invariant(self);
                lemma_ascii_is_utf8(self.mac_string@);
            }
            match str_from_utf8(&self.mac_string) {
                Ok(s) => {
                    proof {
                        encode_utf8_decode_utf8(s@);
                    }
                    Some(s)
                },
                Err(_) => vstd::pervasive::unreached(),
            }
        } else {
            None
        }
    }

    /// Answers a control request of the device-to-host direction.
    pub fn control_in(&self, req: &Request) -> (response: ControlResponse)
        ensures
            response == self@.control_in(*req),
    {
        if !self.is_for_me(req) {
            return ControlResponse::Ignored;
        }
        let code = req.request;
        if code == REQ_GET_ENCAPSULATED_COMMAND {
            ControlResponse::Rejected(Unsupported::EncapsulatedCommand)
        } else if code == GET_ETHERNET_POWER_MANAGEMENT_PATTERN_FILTER {
            ControlResponse::Rejected(Unsupported::PowerManagement)
        } else if code == GET_ETHERNET_STATISTICS {
            ControlResponse::Rejected(Unsupported::Statistics)
        } else {
            ControlResponse::Rejected(Unsupported::Unknown)
        }
    }

    /// Answers a control request of the host-to-device direction.
    pub fn control_out(&self, req: &Request) -> (response: ControlResponse)
        ensures
            response == self@.control_out(*req),
    {
        if !self.is_for_me(req) {
            return ControlResponse::Ignored;
        }
        let code = req.request;
        if code == REQ_SEND_ENCAPSULATED_COMMAND {
            ControlResponse::Rejected(Unsupported::EncapsulatedCommand)
        } else if code == SET_ETHERNET_MULTICAST_FILTERS {
            ControlResponse::Rejected(Unsupported::MulticastFilters)
        } else if code == SET_ETHERNET_PACKET_FILTER {
            ControlResponse::Rejected(Unsupported::PacketFilter)
        } else if code == SET_ETHERNET_POWER_MANAGEMENT_PATTERN_FILTER {
            ControlResponse::Rejected(Unsupported::PowerManagement)
        } else {
            ControlResponse::Rejected(Unsupported::Unknown)
        }
    }
}

} // verus!
