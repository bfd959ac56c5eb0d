//! The wrapper for host network interfaces.

use vstd::prelude::*;

use crate::connect::{connect_result, Connect};
use crate::error::Error;
use crate::ops;
use crate::remote::{HandleOp, IntOp, ObjectKind, Remote, StrOp};

pub mod flags;

use crate::interface::flags::InterfaceXmlFlags;

verus! {

/// A wrapper-producing result, seen as the raw handle it owns; used to
/// restate the generic lookup contract for interface results.
pub open spec fn interface_result(r: Result<Interface, Error>) -> Result<u64, Error> {
    match r {
        Ok(i) => Ok(i.handle()),
        Err(e) => Err(e),
    }
}

/// The wrapper owning the handle of one host network interface. It is live
/// until its one release, and every operation attempted after release fails
/// fast without a remote call.
#[derive(Debug)]
pub struct Interface {
    ptr: Option<u64>,
}

impl Interface {
    /// The handle state: present while live, absent once released.
    pub closed spec fn raw(&self) -> Option<u64> {
        self.ptr
    }

    /// The wrapper still owns its handle and its one release obligation.
    pub open spec fn is_live(&self) -> bool {
        self.raw() is Some
    }

    /// The wrapper was released; its handle is gone for good.
    pub open spec fn is_released(&self) -> bool {
        !self.is_live()
    }

    /// The owned handle of a live wrapper.
    pub open spec fn handle(&self) -> u64 {
        self.raw()->0
    }

    /// Stores a handle obtained from a lookup or define call as a live
    /// wrapper. Only that family of operations calls this.
    pub fn new(ptr: u64) -> (i: Interface)
        ensures
            i.is_live(),
            i.handle() == ptr,
    {
        Interface { ptr: Some(ptr) }
    }

    /// The raw handle, for handing to an adapter; the wrapper must still be
    /// live.
    pub fn as_ptr(&self) -> (r: u64)
        requires
            self.is_live(),
        ensures
            r == self.handle(),
    {
        self.ptr.unwrap()
    }

    /// Obtains an independent connection wrapper from an interface wrapper.
    pub fn get_connect<R: Remote>(&self, remote: &mut R) -> (r: Result<Connect, Error>)
        ensures
            ops::handle_post(
                self.is_live(),
                self.handle(),
                HandleOp::InterfaceGetConnect,
                0,
                0,
                old(remote).history(),
                final(remote).history(),
                final(remote).error_slot(),
                connect_result(r),
            ),
            r matches Ok(c) ==> c.is_live(),
    {
        match ops::run_handle_op(remote, self.ptr, HandleOp::InterfaceGetConnect, "", 0, 0) {
            Ok(h) => Ok(Connect::new(h)),
            Err(e) => Err(e),
        }
    }

    /// Looks an interface up by name; a null answer fails with the captured
    /// error snapshot, and no wrapper is produced.
    pub fn lookup_by_name<R: Remote>(conn: &Connect, remote: &mut R, id: &str) -> (r: Result<
        Interface,
        Error,
    >)
        ensures
            ops::handle_post(
                conn.is_live(),
                conn.handle(),
                HandleOp::InterfaceLookupByName,
                0,
                0,
                old(remote).history(),
                final(remote).history(),
                final(remote).error_slot(),
                interface_result(r),
            ),
            r matches Ok(i) ==> i.is_live(),
    {
        match ops::run_handle_op(remote, conn.raw_opt(), HandleOp::InterfaceLookupByName, id, 0, 0) {
            Ok(h) => Ok(Interface::new(h)),
            Err(e) => Err(e),
        }
    }

    /// Defines a host interface from a description without starting it.
    pub fn define_xml<R: Remote>(conn: &Connect, remote: &mut R, xml: &str) -> (r: Result<
        Interface,
        Error,
    >)
        ensures
            ops::handle_post(
                conn.is_live(),
                conn.handle(),
                HandleOp::InterfaceDefineXml,
                0,
                0,
                old(remote).history(),
                final(remote).history(),
                final(remote).error_slot(),
                interface_result(r),
            ),
            r matches Ok(i) ==> i.is_live(),
    {
        match ops::run_handle_op(remote, conn.raw_opt(), HandleOp::InterfaceDefineXml, xml, 0, 0) {
            Ok(h) => Ok(Interface::new(h)),
            Err(e) => Err(e),
        }
    }

    /// Looks an interface up by its hardware address, with the same contract
    /// as a lookup by name.
    pub fn lookup_by_mac_string<R: Remote>(conn: &Connect, remote: &mut R, id: &str) -> (r: Result<
        Interface,
        Error,
    >)
        ensures
            ops::handle_post(
                conn.is_live(),
                conn.handle(),
                HandleOp::InterfaceLookupByMac,
                0,
                0,
                old(remote).history(),
                final(remote).history(),
                final(remote).error_slot(),
                interface_result(r),
            ),
            r matches Ok(i) ==> i.is_live(),
    {
        match ops::run_handle_op(remote, conn.raw_opt(), HandleOp::InterfaceLookupByMac, id, 0, 0) {
            Ok(h) => Ok(Interface::new(h)),
            Err(e) => Err(e),
        }
    }

    /// The interface's name, copied from a buffer borrowed from the
    /// interface object: no free call is issued on it.
    pub fn get_name<R: Remote>(&self, remote: &mut R) -> (r: Result<String, Error>)
        ensures
            ops::str_post(
                self.is_live(),
                self.handle(),
                StrOp::InterfaceGetName,
                0,
                old(remote).history(),
                final(remote).history(),
                final(remote).error_slot(),
                r,
            ),
    {
        ops::run_str_op(remote, self.ptr, StrOp::InterfaceGetName, 0)
    }

    /// The interface's hardware address, copied from a buffer borrowed from
    /// the interface object: no free call is issued on it.
    pub fn get_mac_string<R: Remote>(&self, remote: &mut R) -> (r: Result<String, Error>)
        ensures
            ops::str_post(
                self.is_live(),
                self.handle(),
                StrOp::InterfaceGetMac,
                0,
                old(remote).history(),
                final(remote).history(),
                final(remote).error_slot(),
                r,
            ),
    {
        ops::run_str_op(remote, self.ptr, StrOp::InterfaceGetMac, 0)
    }

    /// The interface's description. The answer is an owned buffer: it is
    /// copied and then freed exactly once.
    pub fn get_xml_desc<R: Remote>(&self, remote: &mut R, flags: InterfaceXmlFlags) -> (r: Result<
        String,
        Error,
    >)
        ensures
            ops::str_post(
                self.is_live(),
                self.handle(),
                StrOp::InterfaceGetXmlDesc,
                flags.bits,
                old(remote).history(),
                final(remote).history(),
                final(remote).error_slot(),
                r,
            ),
    {
        ops::run_str_op(remote, self.ptr, StrOp::InterfaceGetXmlDesc, flags.bits())
    }

    /// Starts the interface.
    pub fn create<R: Remote>(&self, remote: &mut R) -> (r: Result<(), Error>)
        ensures
            ops::unit_post(
                self.is_live(),
                self.handle(),
                IntOp::InterfaceCreate,
                0,
                0,
                0,
                old(remote).history(),
                final(remote).history(),
                final(remote).error_slot(),
                r,
            ),
    {
        ops::run_unit_op(remote, self.ptr, IntOp::InterfaceCreate, 0, 0, 0)
    }

    /// Stops the interface. This does not release the wrapper's own handle.
    pub fn destroy<R: Remote>(&self, remote: &mut R) -> (r: Result<(), Error>)
        ensures
            ops::unit_post(
                self.is_live(),
                self.handle(),
                IntOp::InterfaceDestroy,
                0,
                0,
                0,
                old(remote).history(),
                final(remote).history(),
                final(remote).error_slot(),
                r,
            ),
    {
        ops::run_unit_op(remote, self.ptr, IntOp::InterfaceDestroy, 0, 0, 0)
    }

    /// Removes the interface's persistent definition.
    pub fn undefine<R: Remote>(&self, remote: &mut R) -> (r: Result<(), Error>)
        ensures
            ops::unit_post(
                self.is_live(),
                self.handle(),
                IntOp::InterfaceUndefine,
                0,
                0,
                0,
                old(remote).history(),
                final(remote).history(),
                final(remote).error_slot(),
                r,
            ),
    {
        ops::run_unit_op(remote, self.ptr, IntOp::InterfaceUndefine, 0, 0, 0)
    }

    /// Releases the local proxy for the interface. A live wrapper issues
    /// the release call exactly once and becomes released even if that call
    /// fails; a released wrapper answers success without any remote call.
    pub fn free<R: Remote>(&mut self, remote: &mut R) -> (r: Result<(), Error>)
        ensures
            final(self).is_released(),
            ops::release_post(
                old(self).raw(),
                ObjectKind::Interface,
                old(remote).history(),
                final(remote).history(),
                final(remote).error_slot(),
                r,
            ),
    {
        ops::run_release(remote, &mut self.ptr, ObjectKind::Interface)
    }

    /// Whether the interface is up.
    pub fn is_active<R: Remote>(&self, remote: &mut R) -> (r: Result<bool, Error>)
        ensures
            ops::bool_post(
                self.is_live(),
                self.handle(),
                IntOp::InterfaceIsActive,
                0,
                0,
                0,
                old(remote).history(),
                final(remote).history(),
                final(remote).error_slot(),
                r,
            ),
    {
        ops::run_bool_op(remote, self.ptr, IntOp::InterfaceIsActive, 0, 0, 0)
    }
}

} // verus!
