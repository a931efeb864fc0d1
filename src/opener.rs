use vstd::prelude::*;
use crate::address::{Address, Family};
use socket2::{Domain, Protocol, Socket, Type};
use std::io::Error;
use std::num::NonZeroU32;

verus! {

#[verifier::external_type_specification]
#[verifier::external_body]
pub struct ExSocket(Socket);

#[verifier::external_type_specification]
#[verifier::external_body]
pub struct ExIoError(Error);

/// Relies on socket2's `Socket::new`: creates a UDP datagram socket of the
/// given family, or reports the system's error.
#[verifier::external_body]
fn new_udp_socket(family: Family) -> (r: Result<Socket, Error>) {
    let domain = match family {
        Family::V4 => Domain::IPV4,
        Family::V6 => Domain::IPV6,
    };
    Socket::new(domain, Type::DGRAM, Some(Protocol::UDP))
}

/// Relies on socket2's `Socket::set_nonblocking`: puts the socket in
/// non-blocking mode, or reports the system's error.
#[verifier::external_body]
fn set_nonblocking(socket: &Socket) -> (r: Result<(), Error>) {
    socket.set_nonblocking(true)
}

/// Relies on socket2's `Socket::bind_device_by_index_v4`: restricts an IPv4
/// socket to the interface with the given index, or reports the system's
/// error.
#[verifier::external_body]
fn bind_device_v4(socket: &Socket, index: u32) -> (r: Result<(), Error>)
    requires
        index != 0,
{
    socket.bind_device_by_index_v4(NonZeroU32::new(index))
}

/// Relies on socket2's `Socket::bind_device_by_index_v6`: restricts an IPv6
/// socket to the interface with the given index, or reports the system's
/// error.
#[verifier::external_body]
fn bind_device_v6(socket: &Socket, index: u32) -> (r: Result<(), Error>)
    requires
        index != 0,
{
    socket.bind_device_by_index_v6(NonZeroU32::new(index))
}

/// The step of opening a socket at which it failed.
#[derive(Clone, Copy, Debug, PartialEq, Eq, Structural)]
pub enum OpenStage {
    /// Creating the datagram socket.
    Create,
    /// Putting the socket in non-blocking mode.
    SetNonblocking,
    /// Binding the socket to a network interface.
    BindDevice,
}

/// Why a socket could not be opened: the step that failed and the system's
/// error.
#[derive(Debug)]
pub struct OpenFailure {
    pub stage: OpenStage,
    pub error: Error,
}

/// Whether opening a socket with the given interface takes the step `stage`:
/// binding to an interface is taken only when there is one.
pub open spec fn takes_step(stage: OpenStage, device: Option<u32>) -> bool {
    stage != OpenStage::BindDevice || device is Some
}

impl OpenFailure {
    /// The system's error, without the step.
    pub fn into_io_error(self) -> (r: Error)
        ensures
            r == self.error,
    {
        self.error
    }
}

/// Opens a non-blocking UDP socket of the family of `addr`, bound to the
/// interface `device` when there is one, and hands the socket over to the
/// caller, who owns it from then on. Without an interface no binding is attempted, so the absence of
/// the interface never makes the call fail. On every failure the socket made
/// so far is closed before returning.
pub fn open_socket(addr: &Address, device: Option<u32>) -> (r: Result<Socket, OpenFailure>)
    requires
        device matches Some(i) ==> i != 0,
    ensures
        r matches Err(f) ==> takes_step(f.stage, device),
        device is None ==> !(r matches Err(f) && f.stage == OpenStage::BindDevice),
{
    let family = addr.family();
    let socket = match new_udp_socket(family) {
        Ok(s) => s,
        Err(e) => {
            return Err(OpenFailure { stage: OpenStage::Create, error: e });
        },
    };
    if let Err(e) = set_nonblocking(&socket) {
        return Err(OpenFailure { stage: OpenStage::SetNonblocking, error: e });
    }
    if let Some(index) = device {
        let bound = match family {
            Family::V4 => bind_device_v4(&socket, index),
            Family::V6 => bind_device_v6(&socket, index),
        };
        if let Err(e) = bound {
            return Err(OpenFailure { stage: OpenStage::BindDevice, error: e });
        }
    }
    Ok(socket)
}

} // verus!
