//! The rights of a socket's file descriptor.
use vstd::prelude::*;
use wasmer_wasix_types::wasi::Rights;

verus! {

/// The set of rights of the WASIX interface types, a set of bit flags.
#[verifier::external_type_specification]
#[verifier::external_body]
pub struct ExRights(Rights);

/// The bits of a set of rights, one for each right that it holds.
pub uninterp spec fn rights_bits(rights: Rights) -> u64;

/// `Rights::union`: the result holds the rights that either set holds.
pub assume_specification[ Rights::union ](rights: Rights, other: Rights) -> (both: Rights)
    ensures
        rights_bits(both) == rights_bits(rights) | rights_bits(other),
;

/// The constant `Rights::FD_FDSTAT_SET_FLAGS`: bit 3 alone.
#[verifier::external_body]
fn fd_fdstat_set_flags() -> (right: Rights)
    ensures
        rights_bits(right) == 0x8,
{
    Rights::FD_FDSTAT_SET_FLAGS
}

/// The constant `Rights::FD_FILESTAT_GET`: bit 21 alone.
#[verifier::external_body]
fn fd_filestat_get() -> (right: Rights)
    ensures
        rights_bits(right) == 0x20_0000,
{
    Rights::FD_FILESTAT_GET
}

/// The constant `Rights::FD_READ`: bit 1 alone.
#[verifier::external_body]
fn fd_read() -> (right: Rights)
    ensures
        rights_bits(right) == 0x2,
{
    Rights::FD_READ
}

/// The constant `Rights::FD_WRITE`: bit 6 alone.
#[verifier::external_body]
fn fd_write() -> (right: Rights)
    ensures
        rights_bits(right) == 0x40,
{
    Rights::FD_WRITE
}

/// The constant `Rights::POLL_FD_READWRITE`: bit 27 alone.
#[verifier::external_body]
fn poll_fd_readwrite() -> (right: Rights)
    ensures
        rights_bits(right) == 0x800_0000,
{
    Rights::POLL_FD_READWRITE
}

/// The constant `Rights::SOCK_SHUTDOWN`: bit 28 alone.
#[verifier::external_body]
fn sock_shutdown() -> (right: Rights)
    ensures
        rights_bits(right) == 0x1000_0000,
{
    Rights::SOCK_SHUTDOWN
}

/// The constant `Rights::SOCK_CONNECT`: bit 30 alone.
#[verifier::external_body]
fn sock_connect() -> (right: Rights)
    ensures
        rights_bits(right) == 0x4000_0000,
{
    Rights::SOCK_CONNECT
}

/// The constant `Rights::SOCK_LISTEN`: bit 31 alone.
#[verifier::external_body]
fn sock_listen() -> (right: Rights)
    ensures
        rights_bits(right) == 0x8000_0000,
{
    Rights::SOCK_LISTEN
}

/// The constant `Rights::SOCK_BIND`: bit 32 alone.
#[verifier::external_body]
fn sock_bind() -> (right: Rights)
    ensures
        rights_bits(right) == 0x1_0000_0000,
{
    Rights::SOCK_BIND
}

/// The constant `Rights::SOCK_ACCEPT`: bit 29 alone.
#[verifier::external_body]
fn sock_accept() -> (right: Rights)
    ensures
        rights_bits(right) == 0x2000_0000,
{
    Rights::SOCK_ACCEPT
}

/// The constant `Rights::SOCK_RECV`: bit 33 alone.
#[verifier::external_body]
fn sock_recv() -> (right: Rights)
    ensures
        rights_bits(right) == 0x2_0000_0000,
{
    Rights::SOCK_RECV
}

/// The constant `Rights::SOCK_SEND`: bit 34 alone.
#[verifier::external_body]
fn sock_send() -> (right: Rights)
    ensures
        rights_bits(right) == 0x4_0000_0000,
{
    Rights::SOCK_SEND
}

/// The constant `Rights::SOCK_ADDR_LOCAL`: bit 35 alone.
#[verifier::external_body]
fn sock_addr_local() -> (right: Rights)
    ensures
        rights_bits(right) == 0x8_0000_0000,
{
    Rights::SOCK_ADDR_LOCAL
}

/// The constant `Rights::SOCK_ADDR_REMOTE`: bit 36 alone.
#[verifier::external_body]
fn sock_addr_remote() -> (right: Rights)
    ensures
        rights_bits(right) == 0x10_0000_0000,
{
    Rights::SOCK_ADDR_REMOTE
}

/// The constant `Rights::SOCK_RECV_FROM`: bit 37 alone.
#[verifier::external_body]
fn sock_recv_from() -> (right: Rights)
    ensures
        rights_bits(right) == 0x20_0000_0000,
{
    Rights::SOCK_RECV_FROM
}

/// The constant `Rights::SOCK_SEND_TO`: bit 38 alone.
#[verifier::external_body]
fn sock_send_to() -> (right: Rights)
    ensures
        rights_bits(right) == 0x40_0000_0000,
{
    Rights::SOCK_SEND_TO
}

/// The bits of the rights that every socket has.
pub open spec fn socket_rights_bits() -> u64 {
    0x8u64
        | 0x20_0000
        | 0x2
        | 0x40
        | 0x800_0000
        | 0x1000_0000
        | 0x4000_0000
        | 0x8000_0000
        | 0x1_0000_0000
        | 0x2000_0000
        | 0x2_0000_0000
        | 0x4_0000_0000
        | 0x8_0000_0000
        | 0x10_0000_0000
        | 0x20_0000_0000
        | 0x40_0000_0000
}

/// The rights that every socket has.
pub fn all_socket_rights() -> (rights: Rights)
    ensures
        rights_bits(rights) == socket_rights_bits(),
{
    fd_fdstat_set_flags()
        .union(fd_filestat_get())
        .union(fd_read())
        .union(fd_write())
        .union(poll_fd_readwrite())
        .union(sock_shutdown())
        .union(sock_connect())
        .union(sock_listen())
        .union(sock_bind())
        .union(sock_accept())
        .union(sock_recv())
        .union(sock_send())
        .union(sock_addr_local())
        .union(sock_addr_remote())
        .union(sock_recv_from())
        .union(sock_send_to())
}

} // verus!
