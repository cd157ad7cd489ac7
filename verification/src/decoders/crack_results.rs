//! The record of one decoder attempt on one input.

use crate::checkers::checker_result::CheckResult;
use crate::decoders::interface::Decoder;
use crate::storage::rows::copy_texts;
use vstd::prelude::*;

verus! {

/// What one decoder made of one input, and what the checker said about it.
#[derive(Debug, Clone, PartialEq, Eq)]
pub struct CrackResult {
    /// If our checkers return success, we change this bool to True
    pub success: bool,
    /// Encrypted text is the text before we decrypt it.
    pub encrypted_text: String,
    /// Unencrypted text is what it looks like after.
    /// A decoder may produce several candidates from one input.
    pub unencrypted_text: Option<Vec<String>>,
    /// Decoder is the name of the decoder that produced this record
    pub decoder: &'static str,
    /// Checker which identified the text
    pub checker_name: &'static str,
    /// Description of the checker
    pub checker_description: &'static str,
    /// Key is optional as decoders do not use keys.
    pub key: Option<&'static str>,
    /// Description is a short description of the decoder
    pub description: &'static str,
    /// Link is a link to more info about the decoder
    pub link: &'static str,
}

/// A record as a mathematical value: every text by its characters.
pub struct CrackView {
    pub success: bool,
    pub encrypted_text: Seq<char>,
    pub unencrypted_text: Option<Seq<Seq<char>>>,
    pub decoder: Seq<char>,
    pub checker_name: Seq<char>,
    pub checker_description: Seq<char>,
    pub key: Option<Seq<char>>,
    pub description: Seq<char>,
    pub link: Seq<char>,
}

impl View for CrackResult {
    type V = CrackView;

    open spec fn view(&self) -> CrackView {
        CrackView {
            success: self.success,
            encrypted_text: self.encrypted_text@,
            unencrypted_text: match self.unencrypted_text {
                Some(list) => Some(list.deep_view()),
                None => None,
            },
            decoder: self.decoder@,
            checker_name: self.checker_name@,
            checker_description: self.checker_description@,
            key: match self.key {
                Some(k) => Some(k@),
                None => None,
            },
            description: self.description@,
            link: self.link@,
        }
    }
}

impl CrackResult {
    /// The record of an attempt of `decoder_used` on `text` that has produced
    /// nothing yet.
    pub fn new<Type>(decoder_used: &Decoder<Type>, text: String) -> (r: CrackResult)
        ensures
            r@ == (CrackView {
                success: false,
                encrypted_text: text@,
                unencrypted_text: None,
                decoder: decoder_used.name@,
                checker_name: Seq::empty(),
                checker_description: Seq::empty(),
                key: None,
                description: decoder_used.description@,
                link: decoder_used.link@,
            }),
            r.key.is_none(),
            r.unencrypted_text.is_none(),
    {
        let r = CrackResult {
            success: false,
            encrypted_text: text,
            unencrypted_text: None,
            decoder: decoder_used.name,
            checker_name: "",
            checker_description: "",
            key: None,
            description: decoder_used.description,
            link: decoder_used.link,
        };
        proof {
            reveal_strlit("");
            assert(r.checker_name@ =~= Seq::<char>::empty());
        }
        r
    }

    /// A copy of the record.
    pub fn duplicate(&self) -> (r: CrackResult)
        ensures
            r@ == self@,
            r.key == self.key,
    {
        let candidates = match &self.unencrypted_text {
            Some(list) => Some(copy_texts(list)),
            None => None,
        };
        CrackResult {
            success: self.success,
            encrypted_text: self.encrypted_text.clone(),
            unencrypted_text: candidates,
            decoder: self.decoder,
            checker_name: self.checker_name,
            checker_description: self.checker_description,
            key: self.key,
            description: self.description,
            link: self.link,
        }
    }

    /// Takes over the verdict of a checker: who judged, and whether the text
    /// was identified.
    pub fn update_checker(&mut self, checker_result: &CheckResult)
        ensures
            final(self)@ == (CrackView {
                success: checker_result.is_identified,
                checker_name: checker_result.checker_name@,
                checker_description: checker_result.checker_description@,
                ..old(self)@
            }),
            final(self).key == old(self).key,
            final(self).unencrypted_text == old(self).unencrypted_text,
    {
        self.checker_name = checker_result.checker_name;
        self.checker_description = checker_result.checker_description;
        self.success = checker_result.is_identified;
    }
}

} // verus!
