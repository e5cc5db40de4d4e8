//! What an invocation hands back: requests to the channel layer and
//! attributes that describe what was done.

use vstd::prelude::*;
use crate::ibc::{msgs_model, IbcMsg, IbcMsgModel};

verus! {

/// A key and a value that describe something an invocation did.
#[derive(Debug, PartialEq, Eq)]
pub struct Attribute {
    pub key: String,
    pub value: String,
}

/// The mathematical value of an [`Attribute`].
pub struct AttributeModel {
    pub key: Seq<char>,
    pub value: Seq<char>,
}

impl View for Attribute {
    type V = AttributeModel;

    open spec fn view(&self) -> AttributeModel {
        AttributeModel { key: self.key@, value: self.value@ }
    }
}

/// Builds an attribute.
pub fn attr(key: &str, value: &str) -> (out: Attribute)
    ensures
        out@ == (AttributeModel { key: key@, value: value@ }),
{
    Attribute { key: key.to_owned(), value: value.to_owned() }
}

/// The values of a list of attributes, in order.
pub open spec fn attrs_model(attrs: Seq<Attribute>) -> Seq<AttributeModel> {
    Seq::new(attrs.len(), |i: int| attrs[i]@)
}

/// The mathematical value of a response: the requests and the attributes,
/// both in order.
pub struct ResponseModel<M> {
    pub messages: Seq<IbcMsgModel<M>>,
    pub attributes: Seq<AttributeModel>,
}

/// Answer to the initialisation.
#[derive(Debug, PartialEq, Eq)]
pub struct InitResponse<M> {
    pub messages: Vec<IbcMsg<M>>,
    pub attributes: Vec<Attribute>,
}

impl<M> View for InitResponse<M> {
    type V = ResponseModel<M>;

    open spec fn view(&self) -> ResponseModel<M> {
        ResponseModel {
            messages: msgs_model(self.messages@),
            attributes: attrs_model(self.attributes@),
        }
    }
}

/// Answer to a command.
#[derive(Debug, PartialEq, Eq)]
pub struct HandleResponse<M> {
    pub messages: Vec<IbcMsg<M>>,
    pub attributes: Vec<Attribute>,
    pub data: Option<Vec<u8>>,
}

impl<M> View for HandleResponse<M> {
    type V = ResponseModel<M>;

    open spec fn view(&self) -> ResponseModel<M> {
        ResponseModel {
            messages: msgs_model(self.messages@),
            attributes: attrs_model(self.attributes@),
        }
    }
}

/// Answer to a channel event other than an incoming packet.
#[derive(Debug, PartialEq, Eq)]
pub struct IbcBasicResponse<M> {
    pub messages: Vec<IbcMsg<M>>,
    pub attributes: Vec<Attribute>,
}

impl<M> View for IbcBasicResponse<M> {
    type V = ResponseModel<M>;

    open spec fn view(&self) -> ResponseModel<M> {
        ResponseModel {
            messages: msgs_model(self.messages@),
            attributes: attrs_model(self.attributes@),
        }
    }
}

/// Answer to an incoming packet: the acknowledgement to send back, besides
/// requests and attributes.
#[derive(Debug, PartialEq, Eq)]
pub struct IbcReceiveResponse<M> {
    pub acknowledgement: Vec<u8>,
    pub messages: Vec<IbcMsg<M>>,
    pub attributes: Vec<Attribute>,
}

impl<M> View for IbcReceiveResponse<M> {
    type V = ResponseModel<M>;

    open spec fn view(&self) -> ResponseModel<M> {
        ResponseModel {
            messages: msgs_model(self.messages@),
            attributes: attrs_model(self.attributes@),
        }
    }
}

} // verus!
