//! Key (or legend)

use vstd::prelude::*;

verus! {

/// Horizontal position of the key
#[derive(Clone, Copy, Debug, PartialEq, Eq, Structural)]
pub enum Horizontal {
    /// Center of the figure
    Center,
    /// Left border of the figure
    Left,
    /// Right border of the figure
    Right,
}

impl Horizontal {
    pub open spec fn text(self) -> Seq<char> {
        match self {
            Horizontal::Center => "center"@,
            Horizontal::Left => "left"@,
            Horizontal::Right => "right"@,
        }
    }

    /// The keyword the renderer uses for this position
    pub fn display(&self) -> (r: &'static str)
        ensures
            r@ == self.text(),
    {
        match self {
            Horizontal::Center => "center",
            Horizontal::Left => "left",
            Horizontal::Right => "right",
        }
    }
}

/// Vertical position of the key
#[derive(Clone, Copy, Debug, PartialEq, Eq, Structural)]
pub enum Vertical {
    /// Bottom border of the figure
    Bottom,
    /// Center of the figure
    Center,
    /// Top border of the figure
    Top,
}

impl Vertical {
    pub open spec fn text(self) -> Seq<char> {
        match self {
            Vertical::Bottom => "bottom"@,
            Vertical::Center => "center"@,
            Vertical::Top => "top"@,
        }
    }

    /// The keyword the renderer uses for this position
    pub fn display(&self) -> (r: &'static str)
        ensures
            r@ == self.text(),
    {
        match self {
            Vertical::Bottom => "bottom",
            Vertical::Center => "center",
            Vertical::Top => "top",
        }
    }
}

/// Text justification of the key
#[derive(Clone, Copy, Debug, PartialEq, Eq, Structural)]
pub enum Justification {
    Left,
    Right,
}

impl Justification {
    pub open spec fn text(self) -> Seq<char> {
        match self {
            Justification::Left => "Left"@,
            Justification::Right => "Right"@,
        }
    }

    /// The keyword the renderer uses for this justification
    pub fn display(&self) -> (r: &'static str)
        ensures
            r@ == self.text(),
    {
        match self {
            Justification::Left => "Left",
            Justification::Right => "Right",
        }
    }
}

/// Order of the elements of the key
#[derive(Clone, Copy, Debug, PartialEq, Eq, Structural)]
pub enum Order {
    /// Sample first, then text
    SampleText,
    /// Text first, then sample
    TextSample,
}

impl Order {
    pub open spec fn text(self) -> Seq<char> {
        match self {
            Order::SampleText => "reverse"@,
            Order::TextSample => "noreverse"@,
        }
    }

    /// The keyword the renderer uses for this order
    pub fn display(&self) -> (r: &'static str)
        ensures
            r@ == self.text(),
    {
        match self {
            Order::SampleText => "reverse",
            Order::TextSample => "noreverse",
        }
    }
}

/// Position of the key
#[derive(Clone, Copy, Debug, PartialEq, Eq, Structural)]
pub enum Position {
    /// Inside the area surrounded by the four (BottomX, TopX, LeftY and RightY) axes
    Inside(Vertical, Horizontal),
    /// Outside of that area
    Outside(Vertical, Horizontal),
}

/// How the entries of the key are stacked
#[derive(Clone, Copy, Debug, PartialEq, Eq, Structural)]
pub enum Stacked {
    Horizontally,
    Vertically,
}

impl Stacked {
    pub open spec fn text(self) -> Seq<char> {
        match self {
            Stacked::Horizontally => "horizontal"@,
            Stacked::Vertically => "vertical"@,
        }
    }

    /// The keyword the renderer uses for this stacking
    pub fn display(&self) -> (r: &'static str)
        ensures
            r@ == self.text(),
    {
        match self {
            Stacked::Horizontally => "horizontal",
            Stacked::Vertically => "vertical",
        }
    }
}

/// The placement directive, empty when no position is set
pub open spec fn position_text(p: Option<Position>) -> Seq<char> {
    match p {
        None => Seq::empty(),
        Some(Position::Inside(v, h)) => "inside "@ + v.text() + " "@ + h.text() + " "@,
        Some(Position::Outside(v, h)) => "outside "@ + v.text() + " "@ + h.text() + " "@,
    }
}

/// A keyword followed by a space, empty when there is none
pub open spec fn word_text(w: Option<Seq<char>>) -> Seq<char> {
    match w {
        None => Seq::empty(),
        Some(w) => w + " "@,
    }
}

/// The characters of an optional keyword
pub open spec fn str_view(w: Option<&str>) -> Option<Seq<char>> {
    match w {
        Some(x) => Some(x@),
        None => None,
    }
}

fn append_word(script: &mut String, w: Option<&'static str>)
    ensures
        final(script)@ == old(script)@ + word_text(str_view(w)),
{
    if let Some(w) = w {
        script.append(w);
        script.append(" ");
    }
}

fn append_title(script: &mut String, t: &Option<String>)
    ensures
        final(script)@ == old(script)@ + title_text(*t),
{
    if let Some(t) = t {
        script.append("title '");
        script.append(t.as_str());
        script.append("' ");
    }
}

fn append_position(script: &mut String, p: Option<Position>)
    ensures
        final(script)@ == old(script)@ + position_text(p),
{
    match p {
        None => {},
        Some(Position::Inside(v, h)) => {
            script.append("inside ");
            script.append(v.display());
            script.append(" ");
            script.append(h.display());
            script.append(" ");
        },
        Some(Position::Outside(v, h)) => {
            script.append("outside ");
            script.append(v.display());
            script.append(" ");
            script.append(h.display());
            script.append(" ");
        },
    }
}

pub open spec fn stacked_word(o: Option<Stacked>) -> Option<Seq<char>> {
    match o {
        Some(x) => Some(x.text()),
        None => None,
    }
}

pub open spec fn justification_word(o: Option<Justification>) -> Option<Seq<char>> {
    match o {
        Some(x) => Some(x.text()),
        None => None,
    }
}

pub open spec fn order_word(o: Option<Order>) -> Option<Seq<char>> {
    match o {
        Some(x) => Some(x.text()),
        None => None,
    }
}

/// Properties of the key.
#[derive(Clone, Debug)]
pub struct KeyProperties {
    pub boxed: bool,
    pub hidden: bool,
    pub justification: Option<Justification>,
    pub order: Option<Order>,
    pub position: Option<Position>,
    pub stacked: Option<Stacked>,
    pub title: Option<String>,
}

/// The title directive, empty when no title is set
pub open spec fn title_text(t: Option<String>) -> Seq<char> {
    match t {
        None => Seq::empty(),
        Some(t) => "title '"@ + t@ + "' "@,
    }
}

impl KeyProperties {
    /// The script statement for a key in this state
    pub open spec fn script_text(self) -> Seq<char> {
        if self.hidden {
            "set key off\n"@
        } else {
            "set key on "@
                + position_text(self.position)
                + word_text(stacked_word(self.stacked))
                + word_text(justification_word(self.justification))
                + word_text(order_word(self.order))
                + title_text(self.title)
                + if self.boxed { "box "@ } else { Seq::empty() }
                + "\n"@
        }
    }

    /// Hides the key
    pub fn hide_key(&mut self) -> (r: &mut KeyProperties)
        ensures
            *final(self) == *final(r),
            *r == (KeyProperties { hidden: true, ..*old(self) }),
    {
        self.hidden = true;
        self
    }

    /// Shows the key
    ///
    /// **Note** The key is shown by default
    pub fn show(&mut self) -> (r: &mut KeyProperties)
        ensures
            *final(self) == *final(r),
            *r == (KeyProperties { hidden: false, ..*old(self) }),
    {
        self.hidden = false;
        self
    }

    /// Should the key be surrounded by a box or not?
    ///
    /// **Note** The key is not boxed by default
    pub fn boxed(&mut self, boxed: bool) -> (r: &mut KeyProperties)
        ensures
            *final(self) == *final(r),
            *r == (KeyProperties { boxed: boxed, ..*old(self) }),
    {
        self.boxed = boxed;
        self
    }

    /// Changes the justification of the text of each entry
    ///
    /// **Note** The text is `RightJustified` by default
    pub fn justification(&mut self, justification: Justification) -> (r: &mut KeyProperties)
        ensures
            *final(self) == *final(r),
            *r == (KeyProperties { justification: Some(justification), ..*old(self) }),
    {
        self.justification = Some(justification);
        self
    }

    /// How to order each entry
    ///
    /// **Note** The default order is `TextSample`
    pub fn order(&mut self, order: Order) -> (r: &mut KeyProperties)
        ensures
            *final(self) == *final(r),
            *r == (KeyProperties { order: Some(order), ..*old(self) }),
    {
        self.order = Some(order);
        self
    }

    /// Selects where to place the key
    ///
    /// **Note** By default, the key is placed `Inside(Vertical::Top, Horizontal::Right)`
    pub fn position(&mut self, position: Position) -> (r: &mut KeyProperties)
        ensures
            *final(self) == *final(r),
            *r == (KeyProperties { position: Some(position), ..*old(self) }),
    {
        self.position = Some(position);
        self
    }

    /// Changes how the entries of the key are stacked
    pub fn stacked(&mut self, stacked: Stacked) -> (r: &mut KeyProperties)
        ensures
            *final(self) == *final(r),
            *r == (KeyProperties { stacked: Some(stacked), ..*old(self) }),
    {
        self.stacked = Some(stacked);
        self
    }

    /// Set the title
    ///
    /// **Note** The title is quoted as it is: a quote inside it is not escaped
    pub fn title(&mut self, title: &str) -> (r: &mut KeyProperties)
        ensures
            *final(self) == *final(r),
            r.title is Some,
            r.title.unwrap()@ == title@,
            *r == (KeyProperties { title: r.title, ..*old(self) }),
    {
        self.title = Some(String::from_str(title));
        self
    }

    /// Renders the key as one script statement
    pub fn script(&self) -> (r: String)
        ensures
            r@ == self.script_text(),
    {
        if self.hidden {
            return String::from_str("set key off\n");
        }
        let mut script = String::from_str("set key on ");
        append_position(&mut script, self.position);
        let stacked = match self.stacked { Some(x) => Some(x.display()), None => None };
        let justification = match self.justification { Some(x) => Some(x.display()), None => None };
        let order = match self.order { Some(x) => Some(x.display()), None => None };
        assert(str_view(stacked) == stacked_word(self.stacked));
        assert(str_view(justification) == justification_word(self.justification));
        assert(str_view(order) == order_word(self.order));
        append_word(&mut script, stacked);
        append_word(&mut script, justification);
        append_word(&mut script, order);
        append_title(&mut script, &self.title);
        if self.boxed {
            script.append("box ");
        }
        script.append("\n");
        script
    }
}

impl Default for KeyProperties {
    fn default() -> (r: KeyProperties)
        ensures
            r == KeyProperties::spec_default(),
    {
        KeyProperties {
            boxed: false,
            hidden: false,
            justification: None,
            order: None,
            position: None,
            stacked: None,
            title: None,
        }
    }
}

impl KeyProperties {
    /// A key that is shown, unboxed, with no option set
    pub open spec fn spec_default() -> KeyProperties {
        KeyProperties {
            boxed: false,
            hidden: false,
            justification: None,
            order: None,
            position: None,
            stacked: None,
            title: None,
        }
    }
}

/// Once the key is hidden, it renders as the bare statement `set key off`, whatever
/// placement, stacking, title or box was set before.
pub proof fn lemma_hidden_key_is_off(k: KeyProperties)
    ensures
        (KeyProperties { hidden: true, ..k }).script_text() == "set key off\n"@,
{
}

/// A key with no option set renders as `set key on ` followed by a newline.
pub proof fn lemma_default_key_script()
    ensures
        KeyProperties::spec_default().script_text() == "set key on \n"@,
{
    reveal_strlit("set key on ");
    reveal_strlit("\n");
    reveal_strlit("set key on \n");
    assert(KeyProperties::spec_default().script_text() =~= "set key on \n"@);
}

/// Rendering is a function of the key's state alone: equal states render to equal text.
pub proof fn lemma_key_script_deterministic(a: KeyProperties, b: KeyProperties)
    requires
        a == b,
    ensures
        a.script_text() == b.script_text(),
{
}

/// Hiding and then showing the key loses none of its settings: the key renders as if
/// it had only been shown.
pub proof fn lemma_hide_then_show(k: KeyProperties)
    ensures
        (KeyProperties { hidden: false, ..KeyProperties { hidden: true, ..k } }).script_text()
            == (KeyProperties { hidden: false, ..k }).script_text(),
{
    assert(KeyProperties { hidden: false, ..KeyProperties { hidden: true, ..k } }
        == KeyProperties { hidden: false, ..k });
}

} // verus!
