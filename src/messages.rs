use vstd::prelude::*;
use vstd::string::*;

use crate::mediatype::str_equal;

verus! {

/// What a message reports.
#[derive(Debug, Clone, Copy, PartialEq, Eq, Structural)]
pub enum MessageType {
    Error,
    Information,
    Section,
}

impl Default for MessageType {
    fn default() -> (r: MessageType)
        ensures
            r == MessageType::Error,
    {
        MessageType::Error
    }
}

/// A message as a value: its kind, its text and the parameters that its
/// text refers to by position.
pub struct MessageView {
    pub kind: MessageType,
    pub text: Seq<char>,
    pub parameters: Seq<Seq<char>>,
}

/// One validation, information or section message.
pub struct Message {
    message_type: MessageType,
    text: String,
    parameters: Vec<String>,
}

pub open spec fn strings_view(v: Seq<String>) -> Seq<Seq<char>> {
    v.map_values(|s: String| s@)
}

impl View for Message {
    type V = MessageView;

    closed spec fn view(&self) -> MessageView {
        MessageView {
            kind: self.message_type,
            text: self.text@,
            parameters: strings_view(self.parameters@),
        }
    }
}

impl Message {
    /// A message of the given kind and text, without parameters.
    pub fn new(message_type: MessageType, text: &str) -> (r: Message)
        ensures
            r@ == (MessageView { kind: message_type, text: text@, parameters: seq![] }),
    {
        let r = Message { message_type, text: String::from_str(text), parameters: Vec::new() };
        assert(strings_view(r.parameters@) =~= seq![]);
        r
    }

    /// The same message with its parameters replaced.
    pub fn with_parameters(self, parameters: Vec<String>) -> (r: Message)
        ensures
            r@ == (MessageView { parameters: strings_view(parameters@), ..self@ }),
    {
        Message { message_type: self.message_type, text: self.text, parameters }
    }

    pub fn message_type(&self) -> (r: MessageType)
        ensures
            r == self@.kind,
    {
        self.message_type
    }

    /// The message reports an error.
    pub fn error(&self) -> (r: bool)
        ensures
            r == (self@.kind == MessageType::Error),
    {
        self.message_type == MessageType::Error
    }

    pub fn text(&self) -> (r: &str)
        ensures
            r@ == self@.text,
    {
        self.text.as_str()
    }

    pub fn parameters(&self) -> (r: &[String])
        ensures
            strings_view(r@) == self@.parameters,
    {
        self.parameters.as_slice()
    }

    /// The message with its text translated by `t` and the placeholder
    /// `{i}` of each parameter `i` replaced by the parameter, in order; the
    /// result has no parameters left.
    pub fn localize<T: Fn(&str) -> String>(&self, t: &T) -> (r: Message)
        requires
            forall|s: &str| #[trigger] t.requires((s,)),
        ensures
            localized_by(*t, self@, r@),
    {
        let source = self.text.as_str();
        let localized = t(source);
        let ghost l = localized@;
        let ghost called = localized;
        let n = self.parameters.len();
        let mut text = localized;
        let mut i: usize = 0;
        while i < n
            invariant
                n == self.parameters@.len(),
                n == self@.parameters.len(),
                i <= n,
                text@ == expanded(l, self@.parameters, i as nat),
            decreases n - i,
        {
            let mut key = String::from_str("{");
            let digits = decimal_text(i);
            key.append(digits.as_str());
            key.append("}");
            proof {
                reveal_strlit("{");
                reveal_strlit("}");
            }
            assert(key@ =~= placeholder(i as nat));
            assert(self@.parameters[i as int] == self.parameters@[i as int]@);
            text = replace_text(text.as_str(), key.as_str(), self.parameters[i].as_str());
            i = i + 1;
        }
        let r = Message { message_type: self.message_type, text, parameters: Vec::new() };
        assert(strings_view(r.parameters@) =~= seq![]);
        assert(t.ensures((source,), called));
        r
    }
}

pub open spec fn messages_view(v: Seq<Message>) -> Seq<MessageView> {
    v.map_values(|m: Message| m@)
}

/// A category as a value: its key and its messages in order.
pub type CategoryView = (Seq<char>, Seq<MessageView>);

pub open spec fn category_view(c: (String, Vec<Message>)) -> CategoryView {
    (c.0@, messages_view(c.1@))
}

pub open spec fn categories_view(v: Seq<(String, Vec<Message>)>) -> Seq<CategoryView> {
    v.map_values(|c: (String, Vec<Message>)| category_view(c))
}

/// No key names two categories.
pub open spec fn unique_keys(v: Seq<CategoryView>) -> bool {
    forall|i: int, j: int| 0 <= i < j < v.len() ==> #[trigger] v[i].0 != #[trigger] v[j].0
}

pub open spec fn holds_key(v: Seq<CategoryView>, key: Seq<char>, i: int) -> bool {
    0 <= i < v.len() && v[i].0 == key
}

/// Where the category with `key` stands, if there is one.
pub open spec fn key_position(v: Seq<CategoryView>, key: Seq<char>) -> Option<int> {
    if exists|i: int| holds_key(v, key, i) {
        Some(choose|i: int| holds_key(v, key, i))
    } else {
        None
    }
}

/// Some message of some category reports an error.
pub open spec fn has_error(v: Seq<CategoryView>) -> bool {
    exists|i: int, j: int|
        0 <= i < v.len() && 0 <= j < v[i].1.len() && (#[trigger] v[i].1[j]).kind
            == MessageType::Error
}

/// `ms` appended to the category `key`, which is added last if absent.
pub open spec fn absorbed(v: Seq<CategoryView>, key: Seq<char>, ms: Seq<MessageView>) -> Seq<
    CategoryView,
> {
    match key_position(v, key) {
        Some(i) => v.update(i, (key, v[i].1 + ms)),
        None => v.push((key, ms)),
    }
}

/// Every category of `w` absorbed into `v` in order.
pub open spec fn absorbed_all(v: Seq<CategoryView>, w: Seq<CategoryView>) -> Seq<CategoryView>
    decreases w.len(),
{
    if w.len() == 0 {
        v
    } else {
        absorbed(absorbed_all(v, w.drop_last()), w.last().0, w.last().1)
    }
}

/// The category `key` holding `m` alone, added last if absent.
pub open spec fn with_single(v: Seq<CategoryView>, key: Seq<char>, m: MessageView) -> Seq<
    CategoryView,
> {
    match key_position(v, key) {
        Some(i) => v.update(i, (key, seq![m])),
        None => v.push((key, seq![m])),
    }
}

/// The category `key` taken out.
pub open spec fn without_key(v: Seq<CategoryView>, key: Seq<char>) -> Seq<CategoryView> {
    match key_position(v, key) {
        Some(i) => v.remove(i),
        None => v,
    }
}

pub open spec fn plain_message(kind: MessageType, text: Seq<char>) -> MessageView {
    MessageView { kind, text, parameters: seq![] }
}

pub open spec fn kind_tag(kind: MessageType) -> Seq<char> {
    match kind {
        MessageType::Error => "E: "@,
        MessageType::Information => "I: "@,
        MessageType::Section => "S: "@,
    }
}

/// `E: text, I: text, ...` for the messages of one category.
pub open spec fn messages_text(ms: Seq<MessageView>) -> Seq<char>
    decreases ms.len(),
{
    if ms.len() == 0 {
        Seq::empty()
    } else {
        let sep = if ms.len() > 1 { ", "@ } else { Seq::empty() };
        messages_text(ms.drop_last()) + sep + kind_tag(ms.last().kind) + ms.last().text
    }
}

/// `key: [messages], key: [messages], ...` over all categories.
pub open spec fn debug_text(v: Seq<CategoryView>) -> Seq<char>
    decreases v.len(),
{
    if v.len() == 0 {
        Seq::empty()
    } else {
        let sep = if v.len() > 1 { ", "@ } else { Seq::empty() };
        debug_text(v.drop_last()) + sep + v.last().0 + ": ["@ + messages_text(v.last().1) + "]"@
    }
}

/// The decimal digits of `n`.
pub open spec fn decimal(n: nat) -> Seq<char>
    decreases n,
{
    if n < 10 {
        seq![digit_char(n)]
    } else {
        decimal(n / 10) + seq![digit_char(n % 10)]
    }
}

pub open spec fn digit_char(d: nat) -> char {
    if d == 0 { '0' } else if d == 1 { '1' } else if d == 2 { '2' } else if d == 3 { '3' } else if d == 4 {
        '4'
    } else if d == 5 { '5' } else if d == 6 { '6' } else if d == 7 { '7' } else if d == 8 { '8' } else { '9' }
}

/// The placeholder `{n}` that a message text uses for its parameter `n`.
pub open spec fn placeholder(n: nat) -> Seq<char> {
    seq!['{'] + decimal(n) + seq!['}']
}

/// Every match of the non-empty `from` in `s`, found left to right without
/// overlap, replaced by `to`.
pub open spec fn replace_all(s: Seq<char>, from: Seq<char>, to: Seq<char>) -> Seq<char>
    decreases s.len(),
{
    if from.len() == 0 || s.len() < from.len() {
        s
    } else if s.subrange(0, from.len() as int) == from {
        to + replace_all(s.subrange(from.len() as int, s.len() as int), from, to)
    } else {
        seq![s[0]] + replace_all(s.subrange(1, s.len() as int), from, to)
    }
}

/// `text` with the placeholders of the first `n` parameters filled in, in
/// order of the parameters.
pub open spec fn expanded(text: Seq<char>, parameters: Seq<Seq<char>>, n: nat) -> Seq<char>
    decreases n,
{
    if n == 0 || n > parameters.len() {
        text
    } else {
        replace_all(expanded(text, parameters, (n - 1) as nat), placeholder((n - 1) as nat), parameters[n - 1])
    }
}

/// `r` is `m` translated by `t` with its parameters filled in.
pub open spec fn localized_by<T: Fn(&str) -> String>(t: T, m: MessageView, r: MessageView) -> bool {
    exists|s: &str, l: String|
        s@ == m.text && #[trigger] t.ensures((s,), l) && r == (MessageView {
            kind: m.kind,
            text: expanded(l@, m.parameters, m.parameters.len()),
            parameters: seq![],
        })
}

/// `rc` is the category `c` with each message translated by `t`.
pub open spec fn category_localized<T: Fn(&str) -> String>(t: T, c: CategoryView, rc: CategoryView) -> bool {
    &&& rc.0 == c.0
    &&& rc.1.len() == c.1.len()
    &&& forall|j: int| 0 <= j < c.1.len() ==> localized_by(t, c.1[j], #[trigger] rc.1[j])
}

/// Relies on `str::replace`: every non-overlapping match of `from`, found
/// left to right, is replaced by `to`.
#[verifier::external_body]
fn replace_text(s: &str, from: &str, to: &str) -> (r: String)
    requires
        from@.len() > 0,
    ensures
        r@ == replace_all(s@, from@, to@),
{
    s.replace(from, to)
}

fn digit_text(d: usize) -> (r: &'static str)
    requires
        d < 10,
    ensures
        r@ == seq![digit_char(d as nat)],
{
    proof {
        reveal_strlit("0");
        reveal_strlit("1");
        reveal_strlit("2");
        reveal_strlit("3");
        reveal_strlit("4");
        reveal_strlit("5");
        reveal_strlit("6");
        reveal_strlit("7");
        reveal_strlit("8");
        reveal_strlit("9");
    }
    if d == 0 {
        "0"
    } else if d == 1 {
        "1"
    } else if d == 2 {
        "2"
    } else if d == 3 {
        "3"
    } else if d == 4 {
        "4"
    } else if d == 5 {
        "5"
    } else if d == 6 {
        "6"
    } else if d == 7 {
        "7"
    } else if d == 8 {
        "8"
    } else {
        "9"
    }
}

/// The decimal digits of `n`.
pub fn decimal_text(n: usize) -> (r: String)
    ensures
        r@ == decimal(n as nat),
    decreases n,
{
    if n < 10 {
        String::from_str(digit_text(n))
    } else {
        let mut s = decimal_text(n / 10);
        s.append(digit_text(n % 10));
        s
    }
}

/// Messages by category: each key maps to its messages in the order they
/// were added, and categories keep the order in which they first appeared.
/// The error flag is recomputed after every change.
pub struct Messages {
    error: bool,
    categories: Vec<(String, Vec<Message>)>,
}

impl View for Messages {
    type V = Seq<CategoryView>;

    closed spec fn view(&self) -> Seq<CategoryView> {
        categories_view(self.categories@)
    }
}

/// Absorbing categories with distinct keys into nothing gives them back
/// unchanged, in order.
pub proof fn lemma_absorb_distinct(v: Seq<CategoryView>)
    requires
        unique_keys(v),
    ensures
        absorbed_all(Seq::<CategoryView>::empty(), v) == v,
    decreases v.len(),
{
    if v.len() > 0 {
        let d = v.drop_last();
        assert(unique_keys(d)) by {
            assert forall|i: int, j: int| 0 <= i < j < d.len() implies d[i].0 != d[j].0 by {
                assert(d[i] == v[i] && d[j] == v[j]);
            }
        }
        lemma_absorb_distinct(d);
        assert forall|i: int| 0 <= i < d.len() implies !holds_key(d, v.last().0, i) by {
            assert(d[i] == v[i]);
            assert(v[i].0 != v[v.len() - 1].0);
        }
        assert(key_position(d, v.last().0) is None);
        assert(d.push(v.last()) =~= v);
    }
}

proof fn lemma_position_of_unique(v: Seq<CategoryView>, key: Seq<char>, i: int)
    requires
        unique_keys(v),
        holds_key(v, key, i),
    ensures
        key_position(v, key) == Some(i),
{
    let c = choose|c: int| holds_key(v, key, c);
    if c < i {
        assert(v[c].0 != v[i].0);
    } else if c > i {
        assert(v[i].0 != v[c].0);
    }
}

impl Messages {
    pub const SERVICE: &'static str = "service";

    pub const ENTITY: &'static str = "entity";

    /// Keys are unique and the error flag agrees with the messages.
    pub closed spec fn wf(&self) -> bool {
        &&& unique_keys(self@)
        &&& self.error == has_error(self@)
    }

    /// No messages at all.
    pub fn new() -> (r: Messages)
        ensures
            r.wf(),
            r@ == Seq::<CategoryView>::empty(),
    {
        let r = Messages { error: false, categories: Vec::new() };
        assert(r@ =~= Seq::<CategoryView>::empty());
        r
    }

    /// Some message of some category reports an error.
    pub fn error(&self) -> (r: bool)
        requires
            self.wf(),
        ensures
            r == has_error(self@),
    {
        self.error
    }

    fn position(&self, key: &str) -> (r: Option<usize>)
        requires
            unique_keys(self@),
        ensures
            match r {
                Some(i) => key_position(self@, key@) == Some(i as int) && i < self@.len(),
                None => key_position(self@, key@) is None,
            },
    {
        let n = self.categories.len();
        let mut i: usize = 0;
        while i < n
            invariant
                n == self.categories@.len(),
                n == self@.len(),
                i <= n,
                unique_keys(self@),
                forall|j: int| 0 <= j < i ==> self@[j].0 != key@,
            decreases n - i,
        {
            assert(self@[i as int] == category_view(self.categories@[i as int]));
            if str_equal(self.categories[i].0.as_str(), key) {
                proof {
                    lemma_position_of_unique(self@, key@, i as int);
                }
                return Some(i);
            }
            i = i + 1;
        }
        assert(!exists|j: int| holds_key(self@, key@, j));
        None
    }

    fn compute_error(&self) -> (r: bool)
        ensures
            r == has_error(self@),
    {
        let n = self.categories.len();
        let mut i: usize = 0;
        while i < n
            invariant
                n == self.categories@.len(),
                n == self@.len(),
                i <= n,
                forall|a: int, b: int|
                    0 <= a < i && 0 <= b < self@[a].1.len() ==> (#[trigger] self@[a].1[b]).kind
                        != MessageType::Error,
            decreases n - i,
        {
            let ms = &self.categories[i].1;
            assert(self@[i as int] == category_view(self.categories@[i as int]));
            let m = ms.len();
            let mut j: usize = 0;
            while j < m
                invariant
                    n == self.categories@.len(),
                    n == self@.len(),
                    i < n,
                    m == ms@.len(),
                    *ms == self.categories@[i as int].1,
                    self@[i as int] == category_view(self.categories@[i as int]),
                    j <= m,
                    forall|b: int| 0 <= b < j ==> (#[trigger] self@[i as int].1[b]).kind != MessageType::Error,
                decreases m - j,
            {
                assert(self@[i as int].1[j as int] == ms@[j as int]@);
                if ms[j].message_type == MessageType::Error {
                    assert(self@[i as int].1[j as int].kind == MessageType::Error);
                    return true;
                }
                j = j + 1;
            }
            i = i + 1;
        }
        false
    }

    /// Appends `ms` to the category `key`, adding the category last if absent.
    fn absorb(&mut self, key: String, ms: Vec<Message>)
        requires
            old(self).wf(),
        ensures
            final(self).wf(),
            final(self)@ == absorbed(old(self)@, key@, messages_view(ms@)),
    {
        let mut ms = ms;
        let ghost v = self@;
        let ghost incoming = ms@;
        match self.position(key.as_str()) {
            Some(i) => {
                let (k, mut existing) = self.categories.remove(i);
                let ghost before = existing@;
                existing.append(&mut ms);
                assert(existing@ == before + incoming);
                assert(messages_view(existing@) =~= messages_view(before) + messages_view(incoming));
                assert(category_view(old(self).categories@[i as int]) == v[i as int]);
                self.categories.insert(i, (k, existing));
                assert(self@ =~= v.update(i as int, (key@, v[i as int].1 + messages_view(incoming))));
                assert(forall|j: int| 0 <= j < self@.len() ==> self@[j].0 == v[j].0);
            },
            None => {
                self.categories.push((key, ms));
                assert(self@ =~= v.push((key@, messages_view(incoming))));
                assert forall|j: int| 0 <= j < v.len() implies self@[j].0 != key@ by {
                    assert(!holds_key(v, key@, j));
                    assert(self@[j] == v[j]);
                }
            },
        }
        self.error = self.compute_error();
    }

    /// Appends each category of `cats` in order, as `absorb` does.
    fn absorb_all(&mut self, cats: Vec<(String, Vec<Message>)>)
        requires
            old(self).wf(),
        ensures
            final(self).wf(),
            final(self)@ == absorbed_all(old(self)@, categories_view(cats@)),
    {
        let ghost start = self@;
        let ghost w = categories_view(cats@);
        let mut rest = cats;
        let n = rest.len();
        let mut i: usize = 0;
        while i < n
            invariant
                self.wf(),
                i <= n,
                n == w.len(),
                categories_view(rest@) == w.subrange(i as int, n as int),
                rest@.len() == n - i,
                self@ == absorbed_all(start, w.subrange(0, i as int)),
            decreases n - i,
        {
            assert(categories_view(rest@)[0] == category_view(rest@[0]));
            let ghost first = rest@[0];
            let ghost old_rest = rest@;
            let (key, ms) = rest.remove(0);
            proof {
                assert((key, ms) == first);
                assert(category_view((key, ms)) == w[i as int]);
                let sub = w.subrange(0, i + 1);
                assert(sub.drop_last() =~= w.subrange(0, i as int));
                assert(sub.last() == w[i as int]);
                assert forall|k: int| 0 <= k < rest@.len() implies categories_view(rest@)[k] == w.subrange(
                    i + 1,
                    n as int,
                )[k] by {
                    assert(rest@[k] == old_rest[k + 1]);
                    assert(categories_view(old_rest)[k + 1] == w.subrange(i as int, n as int)[k + 1]);
                }
                assert(categories_view(rest@) =~= w.subrange(i + 1, n as int));
            }
            self.absorb(key, ms);
            i = i + 1;
        }
        assert(w.subrange(0, n as int) =~= w);
    }

    /// Replaces all messages with those of `with`.
    pub fn replace(&mut self, with: Messages)
        requires
            with.wf(),
        ensures
            final(self).wf(),
            final(self)@ == with@,
    {
        *self = with;
    }

    /// Appends the categories of `with`: messages of a key already present
    /// go after its own, new keys are added last.
    pub fn extend(&mut self, with: Messages)
        requires
            old(self).wf(),
        ensures
            final(self).wf(),
            final(self)@ == absorbed_all(old(self)@, with@),
    {
        self.absorb_all(with.categories);
    }

    /// Messages built from categories in order; a repeated key gathers the
    /// messages of all its occurrences.
    pub fn from_inner(inner: Vec<(String, Vec<Message>)>) -> (r: Messages)
        ensures
            r.wf(),
            r@ == absorbed_all(Seq::<CategoryView>::empty(), categories_view(inner@)),
    {
        let mut r = Messages::new();
        r.absorb_all(inner);
        r
    }

    /// The categories in order.
    pub fn into_inner(self) -> (r: Vec<(String, Vec<Message>)>)
        ensures
            categories_view(r@) == self@,
    {
        self.categories
    }

    /// Removes every message.
    pub fn clear_all(&mut self)
        ensures
            final(self).wf(),
            final(self)@ == Seq::<CategoryView>::empty(),
    {
        self.categories.clear();
        self.error = false;
        assert(self@ =~= Seq::<CategoryView>::empty());
    }

    /// Makes `text` the only message of the category `key`.
    pub fn set(&mut self, key: &str, message_type: MessageType, text: &str)
        requires
            old(self).wf(),
        ensures
            final(self).wf(),
            final(self)@ == with_single(old(self)@, key@, plain_message(message_type, text@)),
    {
        self.set_with_pars(key, message_type, text, Vec::new());
        assert(strings_view(Seq::<String>::empty()) =~= seq![]);
    }

    /// Makes one message with parameters the only message of the category `key`.
    pub fn set_with_pars(
        &mut self,
        key: &str,
        message_type: MessageType,
        text: &str,
        parameters: Vec<String>,
    )
        requires
            old(self).wf(),
        ensures
            final(self).wf(),
            final(self)@ == with_single(
                old(self)@,
                key@,
                MessageView { kind: message_type, text: text@, parameters: strings_view(parameters@) },
            ),
    {
        let ghost v = self@;
        let message = Message::new(message_type, text).with_parameters(parameters);
        let ghost mv = message@;
        let single = vec![message];
        assert(messages_view(single@) =~= seq![mv]);
        match self.position(key) {
            Some(i) => {
                let (k, _) = self.categories.remove(i);
                self.categories.insert(i, (k, single));
                assert(self@ =~= v.update(i as int, (key@, seq![mv])));
                assert(forall|j: int| 0 <= j < self@.len() ==> self@[j].0 == v[j].0);
            },
            None => {
                self.categories.push((String::from_str(key), single));
                assert(self@ =~= v.push((key@, seq![mv])));
                assert forall|j: int| 0 <= j < v.len() implies self@[j].0 != key@ by {
                    assert(!holds_key(v, key@, j));
                    assert(self@[j] == v[j]);
                }
            },
        }
        self.error = self.compute_error();
    }

    /// Appends `text` to the category `key`, adding the category last if absent.
    pub fn add(&mut self, key: &str, message_type: MessageType, text: &str)
        requires
            old(self).wf(),
        ensures
            final(self).wf(),
            final(self)@ == absorbed(old(self)@, key@, seq![plain_message(message_type, text@)]),
    {
        self.add_with_pars(key, message_type, text, Vec::new());
        assert(strings_view(Seq::<String>::empty()) =~= seq![]);
    }

    /// Appends one message with parameters to the category `key`.
    pub fn add_with_pars(
        &mut self,
        key: &str,
        message_type: MessageType,
        text: &str,
        parameters: Vec<String>,
    )
        requires
            old(self).wf(),
        ensures
            final(self).wf(),
            final(self)@ == absorbed(
                old(self)@,
                key@,
                seq![MessageView { kind: message_type, text: text@, parameters: strings_view(parameters@) }],
            ),
    {
        let message = Message::new(message_type, text).with_parameters(parameters);
        let ghost mv = message@;
        let single = vec![message];
        assert(messages_view(single@) =~= seq![mv]);
        self.absorb(String::from_str(key), single);
    }

    /// Removes the category `key` and its messages.
    pub fn clear(&mut self, key: &str)
        requires
            old(self).wf(),
        ensures
            final(self).wf(),
            final(self)@ == without_key(old(self)@, key@),
    {
        let ghost v = self@;
        match self.position(key) {
            Some(i) => {
                self.categories.remove(i);
                assert(self@ =~= v.remove(i as int));
                assert forall|a: int, b: int| 0 <= a < b < self@.len() implies self@[a].0 != self@[b].0 by {
                    if a < i {
                        if b < i {
                            assert(self@[a] == v[a] && self@[b] == v[b]);
                        } else {
                            assert(self@[a] == v[a] && self@[b] == v[b + 1]);
                        }
                    } else {
                        assert(self@[a] == v[a + 1] && self@[b] == v[b + 1]);
                    }
                }
            },
            None => {},
        }
        self.error = self.compute_error();
    }

    pub fn add_entity_error(&mut self, text: &str)
        requires
            old(self).wf(),
        ensures
            final(self).wf(),
            final(self)@ == absorbed(old(self)@, "entity"@, seq![plain_message(MessageType::Error, text@)]),
    {
        self.add(Messages::ENTITY, MessageType::Error, text)
    }

    pub fn add_entity_info(&mut self, text: &str)
        requires
            old(self).wf(),
        ensures
            final(self).wf(),
            final(self)@ == absorbed(
                old(self)@,
                "entity"@,
                seq![plain_message(MessageType::Information, text@)],
            ),
    {
        self.add(Messages::ENTITY, MessageType::Information, text)
    }

    pub fn add_service_error(&mut self, text: &str)
        requires
            old(self).wf(),
        ensures
            final(self).wf(),
            final(self)@ == absorbed(old(self)@, "service"@, seq![plain_message(MessageType::Error, text@)]),
    {
        self.add(Messages::SERVICE, MessageType::Error, text)
    }

    pub fn add_service_info(&mut self, text: &str)
        requires
            old(self).wf(),
        ensures
            final(self).wf(),
            final(self)@ == absorbed(
                old(self)@,
                "service"@,
                seq![plain_message(MessageType::Information, text@)],
            ),
    {
        self.add(Messages::SERVICE, MessageType::Information, text)
    }

    /// One error under the key "service".
    pub fn from_service_error(text: &str) -> (r: Messages)
        ensures
            r.wf(),
            r@ == seq![("service"@, seq![plain_message(MessageType::Error, text@)])],
    {
        let r = Messages::from_service_error_with_pars(text, Vec::new());
        assert(strings_view(Seq::<String>::empty()) =~= seq![]);
        r
    }

    /// One error with parameters under the key "service".
    pub fn from_service_error_with_pars(text: &str, parameters: Vec<String>) -> (r: Messages)
        ensures
            r.wf(),
            r@ == seq![
                ("service"@, seq![MessageView { kind: MessageType::Error, text: text@, parameters: strings_view(parameters@) }]),
            ],
    {
        let mut r = Messages::new();
        r.add_with_pars(Messages::SERVICE, MessageType::Error, text, parameters);
        assert(key_position(Seq::<CategoryView>::empty(), "service"@) is None);
        r
    }

    /// One error under the key "entity".
    pub fn from_entity_error(text: &str) -> (r: Messages)
        ensures
            r.wf(),
            r@ == seq![("entity"@, seq![plain_message(MessageType::Error, text@)])],
    {
        let r = Messages::from_entity_error_with_pars(text, Vec::new());
        assert(strings_view(Seq::<String>::empty()) =~= seq![]);
        r
    }

    /// One error with parameters under the key "entity".
    pub fn from_entity_error_with_pars(text: &str, parameters: Vec<String>) -> (r: Messages)
        ensures
            r.wf(),
            r@ == seq![
                ("entity"@, seq![MessageView { kind: MessageType::Error, text: text@, parameters: strings_view(parameters@) }]),
            ],
    {
        let mut r = Messages::new();
        r.add_with_pars(Messages::ENTITY, MessageType::Error, text, parameters);
        assert(key_position(Seq::<CategoryView>::empty(), "entity"@) is None);
        r
    }

    /// The categories as `key: [E: text, I: text], key: [...]`.
    pub fn to_debug_string(&self) -> (r: String)
        ensures
            r@ == debug_text(self@),
    {
        let mut out = String::new();
        let n = self.categories.len();
        let mut i: usize = 0;
        while i < n
            invariant
                n == self.categories@.len(),
                n == self@.len(),
                i <= n,
                out@ == debug_text(self@.subrange(0, i as int)),
            decreases n - i,
        {
            let ghost before = out@;
            if i > 0 {
                out.append(", ");
            }
            let (key, ms) = &self.categories[i];
            assert(self@[i as int] == category_view(self.categories@[i as int]));
            out.append(key.as_str());
            out.append(": [");
            let mut inner = String::new();
            let m = ms.len();
            let mut j: usize = 0;
            while j < m
                invariant
                    m == ms@.len(),
                    i < n,
                    n == self@.len(),
                    self@[i as int].1 == messages_view(ms@),
                    j <= m,
                    inner@ == messages_text(messages_view(ms@).subrange(0, j as int)),
                decreases m - j,
            {
                let ghost inner_before = inner@;
                if j > 0 {
                    inner.append(", ");
                }
                let tag = match ms[j].message_type {
                    MessageType::Error => "E: ",
                    MessageType::Information => "I: ",
                    MessageType::Section => "S: ",
                };
                inner.append(tag);
                inner.append(ms[j].text.as_str());
                proof {
                    let sub = messages_view(ms@).subrange(0, j + 1);
                    assert(sub.drop_last() =~= messages_view(ms@).subrange(0, j as int));
                    assert(sub.last() == ms@[j as int]@);
                    assert(tag@ == kind_tag(ms@[j as int]@.kind));
                    let sep = if j > 0 { ", "@ } else { Seq::<char>::empty() };
                    assert(inner@ =~= inner_before + sep + kind_tag(sub.last().kind) + sub.last().text);
                }
                j = j + 1;
            }
            out.append(inner.as_str());
            out.append("]");
            proof {
                assert(messages_view(ms@).subrange(0, m as int) =~= messages_view(ms@));
                let sub = self@.subrange(0, i + 1);
                assert(sub.drop_last() =~= self@.subrange(0, i as int));
                assert(sub.last() == self@[i as int]);
                let sep = if i > 0 { ", "@ } else { Seq::<char>::empty() };
                assert(out@ =~= before + sep + key@ + ": ["@ + messages_text(self@[i as int].1) + "]"@);
            }
            i = i + 1;
        }
        assert(self@.subrange(0, n as int) =~= self@);
        out
    }

    /// Well-formed messages never hold a key twice.
    pub proof fn lemma_unique_keys(&self)
        requires
            self.wf(),
        ensures
            unique_keys(self@),
    {
    }

    /// Every message translated by `t`, with its parameters filled in;
    /// categories and their order stay as they are.
    pub fn localize<T: Fn(&str) -> String>(self, t: T) -> (r: Messages)
        requires
            self.wf(),
            forall|s: &str| #[trigger] t.requires((s,)),
        ensures
            r.wf(),
            r@.len() == self@.len(),
            forall|i: int| 0 <= i < self@.len() ==> category_localized(t, self@[i], #[trigger] r@[i]),
    {
        let mut out: Vec<(String, Vec<Message>)> = Vec::new();
        let n = self.categories.len();
        let mut i: usize = 0;
        while i < n
            invariant
                n == self.categories@.len(),
                n == self@.len(),
                i <= n,
                forall|s: &str| #[trigger] t.requires((s,)),
                categories_view(out@).len() == i,
                forall|k: int| 0 <= k < i ==> category_localized(t, self@[k], #[trigger] categories_view(out@)[k]),
            decreases n - i,
        {
            let (key, ms) = &self.categories[i];
            assert(self@[i as int] == category_view(self.categories@[i as int]));
            let m = ms.len();
            let mut localized: Vec<Message> = Vec::new();
            let mut j: usize = 0;
            while j < m
                invariant
                    m == ms@.len(),
                    i < n,
                    n == self@.len(),
                    self@[i as int].1 == messages_view(ms@),
                    forall|s: &str| #[trigger] t.requires((s,)),
                    j <= m,
                    localized@.len() == j,
                    forall|b: int| 0 <= b < j ==> localized_by(t, self@[i as int].1[b], #[trigger] localized@[b]@),
                decreases m - j,
            {
                let message = ms[j].localize(&t);
                assert(self@[i as int].1[j as int] == ms@[j as int]@);
                localized.push(message);
                j = j + 1;
            }
            let ghost before = out@;
            out.push((key.clone(), localized));
            proof {
                assert(categories_view(out@) =~= categories_view(before).push(category_view((*key, localized))));
                let c = categories_view(out@)[i as int];
                assert(c.1 == messages_view(localized@));
                assert forall|b: int| 0 <= b < self@[i as int].1.len() implies localized_by(
                    t,
                    self@[i as int].1[b],
                    #[trigger] c.1[b],
                ) by {
                    assert(c.1[b] == localized@[b]@);
                }
            }
            i = i + 1;
        }
        let mut r = Messages { error: false, categories: out };
        proof {
            assert forall|a: int, b: int| 0 <= a < b < r@.len() implies r@[a].0 != r@[b].0 by {
                assert(category_localized(t, self@[a], r@[a]));
                assert(category_localized(t, self@[b], r@[b]));
            }
        }
        r.error = r.compute_error();
        r
    }
}

impl<'a> From<&'a str> for Messages {
    /// One error under the key "service".
    fn from(text: &'a str) -> (r: Messages) {
        Messages::from_service_error(text)
    }
}

impl<'a> vstd::std_specs::convert::FromSpecImpl<&'a str> for Messages {
    open spec fn obeys_from_spec() -> bool {
        false
    }

    open spec fn from_spec(text: &'a str) -> Messages {
        vstd::pervasive::arbitrary()
    }
}

} // verus!
