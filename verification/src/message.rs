//! User-facing text.
//!
//! **These carry a key and arguments, not a finished sentence.** Building the
//! actual sentence is left to whatever renders it (the CLI or the editor),
//! in whatever language is active at that moment.

use vstd::prelude::*;

use crate::i18n::Strings;
use crate::strmap::{Entries, StrMap};
use crate::text::{chars_of, concat, concat3, owned, replace, replace_all};

verus! {

pub struct Message {
    pub key: &'static str,
    /// Values to substitute into `{name}` placeholders, ordered by name.
    pub args: StrMap,
}

/// What a message says: its key and its arguments.
pub struct MessageView {
    pub key: Seq<char>,
    pub args: Map<Seq<char>, Seq<char>>,
}

impl View for Message {
    type V = MessageView;

    open spec fn view(&self) -> MessageView {
        MessageView { key: self.key@, args: self.args.map() }
    }
}

/// A message with no arguments.
pub open spec fn msg(key: Seq<char>) -> MessageView {
    MessageView { key, args: Map::empty() }
}

/// A message with arguments.
pub open spec fn msg_args(key: Seq<char>, args: Map<Seq<char>, Seq<char>>) -> MessageView {
    MessageView { key, args }
}

/// The `{name}` placeholder for an argument.
pub open spec fn placeholder(name: Seq<char>) -> Seq<char> {
    seq!['{'] + name + seq!['}']
}

/// An argument value as rendered: a value that starts with `@` is itself a
/// key, looked up again in the display language.
pub open spec fn resolve(strings: Strings, value: Seq<char>) -> Seq<char> {
    if value.len() > 0 && value[0] == '@' {
        strings.ui(value.skip(1))
    } else {
        value
    }
}

/// Fills the placeholders of `text` with the arguments, in argument order.
pub open spec fn fill(strings: Strings, text: Seq<char>, args: Entries) -> Seq<char>
    decreases args.len(),
{
    if args.len() == 0 {
        text
    } else {
        fill(
            strings,
            replace(text, placeholder(args[0].0), resolve(strings, args[0].1)),
            args.skip(1),
        )
    }
}

/// The sentence a message renders to.
pub open spec fn rendered(strings: Strings, key: Seq<char>, args: Entries) -> Seq<char> {
    fill(strings, strings.ui(key), args)
}

impl Message {
    pub fn new(key: &'static str) -> (r: Message)
        ensures
            r.key == key,
            r.args@.len() == 0,
            r@ == msg(key@),
    {
        Message { key, args: StrMap::new() }
    }

    /// A copy of the message.
    pub fn copy(&self) -> (r: Message)
        ensures
            r.key == self.key,
            r@ == self@,
            r.args@ == self.args@,
    {
        Message { key: self.key, args: self.args.copy() }
    }

    /// Adds (or replaces) the argument `name`.
    pub fn with(self, name: &'static str, value: &str) -> (r: Message)
        ensures
            r.key == self.key,
            r@ == msg_args(self.key@, self@.args.insert(name@, value@)),
    {
        let mut m = self;
        m.args.insert(owned(name), owned(value));
        m
    }

    /// For when the argument itself needs translating, e.g. "push" in "push failed".
    ///
    /// The value is the key prefixed with `@`, looked up again at render time,
    /// so the message itself stays free of any one language.
    pub fn with_key(self, name: &'static str, key: &str) -> (r: Message)
        ensures
            r.key == self.key,
            r@ == msg_args(self.key@, self@.args.insert(name@, seq!['@'] + key@)),
    {
        let value = concat("@", key);
        proof {
            reveal_strlit("@");
            assert(value@ =~= seq!['@'] + key@);
        }
        self.with(name, value.as_str())
    }

    /// Renders the sentence in the given language.
    ///
    /// A missing key falls back to the key itself, so a missing translation
    /// shows up on screen as its key rather than as a blank.
    pub fn render(&self, strings: &Strings) -> (r: String)
        ensures
            r@ == rendered(*strings, self.key@, self.args@),
    {
        let mut text = owned(strings.get(self.key));
        let n = self.args.len();
        let mut i: usize = 0;
        assert(self.args@.skip(0) =~= self.args@);
        while i < n
            invariant
                n == self.args@.len(),
                i <= n,
                fill(*strings, text@, self.args@.skip(i as int)) == rendered(
                    *strings,
                    self.key@,
                    self.args@,
                ),
            decreases n - i,
        {
            let (name, value) = self.args.entry(i);
            let v = chars_of(value.as_str());
            let resolved = if v.len() > 0 && v[0] == '@' {
                let rest = crate::text::substring(&v, 1, v.len());
                assert(rest@ =~= value@.skip(1));
                owned(strings.get(rest.as_str()))
            } else {
                owned(value.as_str())
            };
            let pattern = concat3("{", name.as_str(), "}");
            proof {
                reveal_strlit("{");
                reveal_strlit("}");
                assert(pattern@ =~= placeholder(name@));
            }
            text = replace_all(text.as_str(), pattern.as_str(), resolved.as_str());
            assert(self.args@.skip(i as int).skip(1) =~= self.args@.skip(i + 1));
            i = i + 1;
        }
        text
    }
}

} // verus!
