//! Registration of custom operators with a session, done once while the
//! session is set up.

use vstd::prelude::*;
use vstd::string::StringSliceAdditionalSpecFns;
use crate::context::Api;
use crate::host::{HostCall, HostReply, Progress, Protocol};
use crate::status::{status_outcome, status_to_result};
use crate::text::{nul_free, str_to_c_char_ptr};

verus! {

/// The version of the host's interface that this library asks for.
pub const API_VERSION: u32 = 12;

/// The settings of a session, to which operator domains are attached.
#[derive(Debug)]
pub struct SessionOptions {
    pub api: Api,
    pub session_options: usize,
}

/// A named collection of custom operators.
#[derive(Debug)]
pub struct CustomOpDomain<'s> {
    pub api: &'s Api,
    pub custom_op_domain: usize,
}

/// Asks the host for its function table, in the version [`API_VERSION`].
#[derive(Debug)]
pub struct SessionSetup {
    pub api_base: usize,
    pub session_options: usize,
}

/// Has the host make an operator domain.
#[derive(Debug)]
pub struct DomainCreation<'s> {
    pub api: &'s Api,
    pub name: Vec<u8>,
}

/// A registration call: it gives nothing but its status.
#[derive(Debug)]
pub enum Registration {
    /// Adds an operator descriptor to a domain.
    AddOp { domain: usize, op: usize },
    /// Attaches a domain to the settings of a session.
    AttachDomain { options: usize, domain: usize },
}

impl Protocol for SessionSetup {
    type Output = SessionOptions;

    open spec fn call(&self) -> HostCall {
        HostCall::GetApi { api_base: self.api_base, version: API_VERSION }
    }

    open spec fn step(self, reply: HostReply) -> Progress<Self, SessionOptions> {
        Progress::Finished(
            match reply.handle_outcome() {
                Ok(api) => Ok(
                    SessionOptions { api: Api { api }, session_options: self.session_options },
                ),
                Err(e) => Err(e),
            },
        )
    }

    open spec fn holding(&self) -> Option<usize> {
        None
    }

    open spec fn hands_over(output: SessionOptions) -> Option<usize> {
        None
    }

    fn request(&self) -> (c: HostCall) {
        HostCall::GetApi { api_base: self.api_base, version: API_VERSION }
    }

    fn resume(self, reply: HostReply) -> (p: Progress<Self, SessionOptions>) {
        Progress::Finished(
            match reply.into_handle() {
                Ok(api) => Ok(
                    SessionOptions { api: Api { api }, session_options: self.session_options },
                ),
                Err(e) => Err(e),
            },
        )
    }

    proof fn lemma_discipline(self, reply: HostReply) {
    }
}

impl<'s> Protocol for DomainCreation<'s> {
    type Output = CustomOpDomain<'s>;

    open spec fn call(&self) -> HostCall {
        HostCall::CreateCustomOpDomain { name: self.name }
    }

    open spec fn step(self, reply: HostReply) -> Progress<Self, CustomOpDomain<'s>> {
        Progress::Finished(
            match reply.handle_outcome() {
                Ok(custom_op_domain) => Ok(CustomOpDomain { api: self.api, custom_op_domain }),
                Err(e) => Err(e),
            },
        )
    }

    open spec fn holding(&self) -> Option<usize> {
        None
    }

    open spec fn hands_over(output: CustomOpDomain<'s>) -> Option<usize> {
        None
    }

    fn request(&self) -> (c: HostCall) {
        HostCall::CreateCustomOpDomain { name: self.name.clone() }
    }

    fn resume(self, reply: HostReply) -> (p: Progress<Self, CustomOpDomain<'s>>) {
        Progress::Finished(
            match reply.into_handle() {
                Ok(custom_op_domain) => Ok(CustomOpDomain { api: self.api, custom_op_domain }),
                Err(e) => Err(e),
            },
        )
    }

    proof fn lemma_discipline(self, reply: HostReply) {
    }
}

impl Protocol for Registration {
    type Output = ();

    open spec fn call(&self) -> HostCall {
        match *self {
            Registration::AddOp { domain, op } => HostCall::CustomOpDomainAdd { domain, op },
            Registration::AttachDomain { options, domain } => HostCall::AddCustomOpDomain {
                options,
                domain,
            },
        }
    }

    open spec fn step(self, reply: HostReply) -> Progress<Self, ()> {
        Progress::Finished(status_outcome(reply.status))
    }

    open spec fn holding(&self) -> Option<usize> {
        None
    }

    open spec fn hands_over(output: ()) -> Option<usize> {
        None
    }

    fn request(&self) -> (c: HostCall) {
        match *self {
            Registration::AddOp { domain, op } => HostCall::CustomOpDomainAdd { domain, op },
            Registration::AttachDomain { options, domain } => HostCall::AddCustomOpDomain {
                options,
                domain,
            },
        }
    }

    fn resume(self, reply: HostReply) -> (p: Progress<Self, ()>) {
        Progress::Finished(status_to_result(reply.status))
    }

    proof fn lemma_discipline(self, reply: HostReply) {
    }
}

impl SessionOptions {
    /// The settings `options` of a session, with the function table that the
    /// host's entry point `api_base` gives for [`API_VERSION`]. A host that
    /// does not have that version gives no table: the setup then fails with
    /// a null result.
    pub fn from_ort(api_base: usize, options: usize) -> (q: SessionSetup)
        ensures
            q.api_base == api_base,
            q.session_options == options,
    {
        SessionSetup { api_base, session_options: options }
    }

    /// A new operator domain named `domain`. The host keeps the address of
    /// the name for as long as the domain lives, so whoever performs the
    /// call never frees it.
    pub fn create_custom_op_domain<'s>(&'s self, domain: &str) -> (q: DomainCreation<'s>)
        requires
            nul_free(domain.spec_bytes()),
        ensures
            q.api == &self.api,
            q.name@ == domain.spec_bytes().push(0u8),
    {
        DomainCreation { api: &self.api, name: str_to_c_char_ptr(domain) }
    }

    /// Attaches `domain` to these settings. What the host finds wrong with
    /// it, a name used twice for one, comes back as the host's status.
    pub fn attach_domain_to_session(&self, domain: &CustomOpDomain) -> (q: Registration)
        ensures
            q == (Registration::AttachDomain {
                options: self.session_options,
                domain: domain.custom_op_domain,
            }),
    {
        Registration::AttachDomain {
            options: self.session_options,
            domain: domain.custom_op_domain,
        }
    }
}

impl<'s> CustomOpDomain<'s> {
    /// Adds the operator whose descriptor lies at `op` to the domain. The
    /// descriptor is a constant of the process.
    pub fn add_op_to_domain(&mut self, op: usize) -> (q: Registration)
        ensures
            *final(self) == *old(self),
            q == (Registration::AddOp { domain: old(self).custom_op_domain, op }),
    {
        Registration::AddOp { domain: self.custom_op_domain, op }
    }
}

} // verus!
