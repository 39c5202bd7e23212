use vstd::prelude::*;

use crate::error::code::ErrorCode;
use crate::error::context::ErrorContext;
use crate::error::descriptor::ErrorDescriptor;
use crate::error::kind::ErrorKind;
use crate::error::native::{optional_text, optional_view, NativeError};
use crate::text::{owned, TextValue};

verus! {

/// One runtime error: a static descriptor plus the details of this occurrence.
/// `source` keeps the display text of the underlying error, if any.
#[derive(Debug)]
pub struct BaseError {
    pub desc: ErrorDescriptor,
    pub detail: Option<String>,
    pub native: Option<NativeError>,
    pub context: Vec<ErrorContext>,
    pub source: Option<String>,
}

/// The text of an error: its detail when one is attached, else the default
/// message of its descriptor.
pub open spec fn spec_error_text(e: BaseError) -> Seq<char> {
    match e.detail {
        Some(d) => d@,
        None => e.desc.default_message@,
    }
}

impl BaseError {
    /// A new error of the given descriptor, with nothing attached yet.
    pub fn new(desc: ErrorDescriptor) -> (e: BaseError)
        ensures
            e.desc == desc,
            e.detail is None,
            e.native is None,
            e.context@.len() == 0,
            e.source is None,
    {
        BaseError { desc, detail: None, native: None, context: Vec::new(), source: None }
    }

    /// Attaches (or replaces) the detail text.
    pub fn detail(self, detail: impl TextValue) -> (e: BaseError)
        ensures
            e.desc == self.desc,
            optional_view(e.detail) == Some(detail.text()),
            e.native == self.native,
            e.context == self.context,
            e.source == self.source,
    {
        let mut e = self;
        e.detail = Some(detail.render());
        e
    }

    /// Attaches (or replaces) the information of the underlying system.
    pub fn native<C: TextValue, M: TextValue>(
        self,
        source: &'static str,
        code: Option<C>,
        message: Option<M>,
    ) -> (e: BaseError)
        ensures
            e.desc == self.desc,
            e.detail == self.detail,
            e.native matches Some(n) && n.source == source && optional_view(n.code)
                == optional_text(code) && optional_view(n.message) == optional_text(message),
            e.context == self.context,
            e.source == self.source,
    {
        let mut e = self;
        e.native = Some(NativeError::new(source, code, message));
        e
    }

    /// Appends one key/value pair after those already attached.
    pub fn context(self, key: &'static str, value: impl TextValue) -> (e: BaseError)
        ensures
            e.desc == self.desc,
            e.detail == self.detail,
            e.native == self.native,
            e.source == self.source,
            e.context@.len() == self.context@.len() + 1,
            forall|i: int| 0 <= i < self.context@.len() ==> e.context@[i] == self.context@[i],
            e.context@.last().key == key,
            e.context@.last().value@ == value.text(),
    {
        let mut e = self;
        e.context.push(ErrorContext::new(key, value));
        e
    }

    /// Attaches (or replaces) the text of the underlying error.
    pub fn source(self, err: impl TextValue) -> (e: BaseError)
        ensures
            e.desc == self.desc,
            e.detail == self.detail,
            e.native == self.native,
            e.context == self.context,
            optional_view(e.source) == Some(err.text()),
    {
        let mut e = self;
        e.source = Some(err.render());
        e
    }

    /// The descriptor's code.
    pub fn code(&self) -> (c: ErrorCode)
        ensures
            c == self.desc.code,
    {
        self.desc.code
    }

    /// The descriptor's name.
    pub fn name(&self) -> (n: &'static str)
        ensures
            n == self.desc.name,
    {
        self.desc.name
    }

    /// The descriptor's kind.
    pub fn kind(&self) -> (k: ErrorKind)
        ensures
            k == self.desc.kind,
    {
        self.desc.kind
    }

    /// The descriptor's default message.
    pub fn default_message(&self) -> (m: &'static str)
        ensures
            m == self.desc.default_message,
    {
        self.desc.default_message
    }

    /// Renders the error as `Display` does: the detail when attached, else
    /// the default message.
    pub fn to_string(&self) -> (s: String)
        ensures
            s@ == spec_error_text(*self),
    {
        match &self.detail {
            Some(d) => d.clone(),
            None => owned(self.desc.default_message),
        }
    }
}

/// Each error of `chain` is made from the one before it by a builder
/// (`detail`, `native`, `context` or `source`), which keeps the descriptor.
pub open spec fn is_builder_chain(chain: Seq<BaseError>) -> bool {
    forall|k: int| 0 <= k < chain.len() - 1 ==> (#[trigger] chain[k + 1]).desc == chain[k].desc
}

/// However many details, native data, context items and sources are
/// attached, an error keeps the descriptor it was created with: its code,
/// name, kind and default message never change.
pub proof fn law_builder_chains_keep_the_descriptor(chain: Seq<BaseError>)
    requires
        chain.len() >= 1,
        is_builder_chain(chain),
    ensures
        forall|k: int| 0 <= k < chain.len() ==> (#[trigger] chain[k]).desc == chain[0].desc,
    decreases chain.len(),
{
    if chain.len() > 1 {
        let shorter = chain.drop_last();
        assert(is_builder_chain(shorter)) by {
            assert forall|k: int| 0 <= k < shorter.len() - 1 implies (#[trigger] shorter[k + 1]).desc
                == shorter[k].desc by {
                assert(shorter[k + 1] == chain[k + 1]);
                assert(shorter[k] == chain[k]);
            }
        }
        law_builder_chains_keep_the_descriptor(shorter);
        assert forall|k: int| 0 <= k < chain.len() implies (#[trigger] chain[k]).desc
            == chain[0].desc by {
            if k < chain.len() - 1 {
                assert(chain[k] == shorter[k]);
                assert(shorter[0] == chain[0]);
            } else {
                let p = k - 1;
                assert(chain[p + 1].desc == chain[p].desc);
                assert(chain[p] == shorter[p]);
                assert(shorter[p].desc == shorter[0].desc);
                assert(shorter[0] == chain[0]);
            }
        }
    }
}

} // verus!
