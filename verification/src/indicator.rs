use vstd::prelude::*;

use crate::codes::AppIndicatorCategory;
use crate::codes::AppIndicatorStatus;
use crate::error::Error;
use crate::error::ErrorReason;

verus! {

/// A non-owning reference to a menu object in the toolkit's widget tree.
///
/// The indicator only records which object is attached; it never manages
/// that object's lifetime.  Two values are equal exactly when they name
/// the same underlying toolkit object.
#[derive(Clone, Copy, Debug, PartialEq, Eq, Structural)]
pub struct MenuRef {
    /// The identity of the underlying toolkit object.
    pub id: u64,
}

/// A non-owning reference to a widget in the toolkit's widget tree, used
/// as the secondary-activation target.  Equality is identity of the
/// underlying toolkit object.
#[derive(Clone, Copy, Debug, PartialEq, Eq, Structural)]
pub struct WidgetRef {
    /// The identity of the underlying toolkit object.
    pub id: u64,
}

/// The observable state of an indicator, as mathematical values.  Every
/// optional text field mirrors the native optional-string pattern: `None`
/// stands for an absent (null) native string.
#[verifier::ext_equal]
pub struct IndicatorView {
    pub id: Option<Seq<char>>,
    pub category: AppIndicatorCategory,
    pub status: AppIndicatorStatus,
    pub icon: Option<Seq<char>>,
    pub icon_desc: Option<Seq<char>>,
    pub icon_theme_path: Option<Seq<char>>,
    pub attention_icon: Option<Seq<char>>,
    pub attention_icon_desc: Option<Seq<char>>,
    pub title: Option<Seq<char>>,
    pub label: Option<Seq<char>>,
    pub label_guide: Option<Seq<char>>,
    pub ordering_index: u32,
    pub menu: Option<MenuRef>,
    pub secondary_activate_target: Option<WidgetRef>,
}

impl IndicatorView {
    /// The state of a freshly constructed indicator: the identifier and
    /// icon name given at construction, the fixed `ApplicationStatus`
    /// category, the native default `Passive` status, and every other
    /// source absent.
    pub open spec fn init(id: Seq<char>, icon: Seq<char>, theme_path: Option<Seq<char>>) -> IndicatorView {
        IndicatorView {
            id: Some(id),
            category: AppIndicatorCategory::ApplicationStatus,
            status: AppIndicatorStatus::Passive,
            icon: Some(icon),
            icon_desc: None,
            icon_theme_path: theme_path,
            attention_icon: None,
            attention_icon_desc: None,
            title: None,
            label: None,
            label_guide: None,
            ordering_index: 0,
            menu: None,
            secondary_activate_target: None,
        }
    }

    /// The state after the status is set.
    pub open spec fn with_status(self, status: AppIndicatorStatus) -> IndicatorView {
        IndicatorView { status, ..self }
    }

    /// The state after a menu is attached.
    pub open spec fn with_menu(self, menu: MenuRef) -> IndicatorView {
        IndicatorView { menu: Some(menu), ..self }
    }

    /// The state after the label and its guide text are set.
    pub open spec fn with_label(self, label: Seq<char>, guide: Seq<char>) -> IndicatorView {
        IndicatorView { label: Some(label), label_guide: Some(guide), ..self }
    }

    /// The state after the title is set.
    pub open spec fn with_title(self, title: Seq<char>) -> IndicatorView {
        IndicatorView { title: Some(title), ..self }
    }

    /// The state after the icon name is set; the stored icon description
    /// is left as it was.
    pub open spec fn with_icon(self, name: Seq<char>) -> IndicatorView {
        IndicatorView { icon: Some(name), ..self }
    }

    /// The state after the icon-theme search path is set.
    pub open spec fn with_icon_theme_path(self, path: Seq<char>) -> IndicatorView {
        IndicatorView { icon_theme_path: Some(path), ..self }
    }

    /// The state after the icon name and its description are set.
    pub open spec fn with_icon_full(self, name: Seq<char>, desc: Seq<char>) -> IndicatorView {
        IndicatorView { icon: Some(name), icon_desc: Some(desc), ..self }
    }

    /// The state after the attention-icon name is set; the stored
    /// description is left as it was.
    pub open spec fn with_attention_icon(self, name: Seq<char>) -> IndicatorView {
        IndicatorView { attention_icon: Some(name), ..self }
    }

    /// The state after the attention-icon name and its description are set.
    pub open spec fn with_attention_icon_full(self, name: Seq<char>, desc: Seq<char>) -> IndicatorView {
        IndicatorView { attention_icon: Some(name), attention_icon_desc: Some(desc), ..self }
    }

    /// The state after the secondary-activation target widget is set.
    pub open spec fn with_secondary_activate_target(self, target: WidgetRef) -> IndicatorView {
        IndicatorView { secondary_activate_target: Some(target), ..self }
    }
}

/// The plain-value model of one application indicator: it holds, as owned
/// values, exactly what the accessors read and the mutators change.  The
/// process that owns the native resource forwards every call here, so the
/// contracts below say what each operation does to the observable state.
///
/// Text stored here is already validated, so the accessors report only an
/// absent source; ill-formed native bytes are caught where they enter, by
/// [`crate::cstr_to_string`], as the `Utf8Error` reason.
pub struct AppIndicator {
    id: Option<String>,
    category: AppIndicatorCategory,
    status: AppIndicatorStatus,
    icon: Option<String>,
    icon_desc: Option<String>,
    icon_theme_path: Option<String>,
    attention_icon: Option<String>,
    attention_icon_desc: Option<String>,
    title: Option<String>,
    label: Option<String>,
    label_guide: Option<String>,
    ordering_index: u32,
    menu: Option<MenuRef>,
    secondary_activate_target: Option<WidgetRef>,
}

impl View for AppIndicator {
    type V = IndicatorView;

    closed spec fn view(&self) -> IndicatorView {
        IndicatorView {
            id: match self.id {
                Some(s) => Some(s@),
                None => None,
            },
            category: self.category,
            status: self.status,
            icon: match self.icon {
                Some(s) => Some(s@),
                None => None,
            },
            icon_desc: match self.icon_desc {
                Some(s) => Some(s@),
                None => None,
            },
            icon_theme_path: match self.icon_theme_path {
                Some(s) => Some(s@),
                None => None,
            },
            attention_icon: match self.attention_icon {
                Some(s) => Some(s@),
                None => None,
            },
            attention_icon_desc: match self.attention_icon_desc {
                Some(s) => Some(s@),
                None => None,
            },
            title: match self.title {
                Some(s) => Some(s@),
                None => None,
            },
            label: match self.label {
                Some(s) => Some(s@),
                None => None,
            },
            label_guide: match self.label_guide {
                Some(s) => Some(s@),
                None => None,
            },
            ordering_index: self.ordering_index,
            menu: self.menu,
            secondary_activate_target: self.secondary_activate_target,
        }
    }
}

/// Reads one optional text field: the stored text, or the typed error for
/// an absent source.
fn text_field(field: &Option<String>) -> (r: Result<String, Error>)
    ensures
        field matches Some(s) ==> (r matches Ok(t) && t@ == s@),
        field is None ==> (r matches Err(e) && e.spec_reason() == ErrorReason::NullPtr),
{
    match field {
        Some(s) => Ok(s.clone()),
        None => Err(Error::null_ptr()),
    }
}

impl AppIndicator {
    /// A fresh indicator with the given identifier and icon name.  Its
    /// category is the fixed `ApplicationStatus`, its status starts at the
    /// native default `Passive`, and every other source is absent.
    pub fn new(title: &str, icon: &str) -> (r: AppIndicator)
        ensures
            r@ == IndicatorView::init(title@, icon@, None),
            r@.status == AppIndicatorStatus::Passive,
            r@.category == AppIndicatorCategory::ApplicationStatus,
    {
        AppIndicator {
            id: Some(title.to_owned()),
            category: AppIndicatorCategory::ApplicationStatus,
            status: AppIndicatorStatus::Passive,
            icon: Some(icon.to_owned()),
            icon_desc: None,
            icon_theme_path: None,
            attention_icon: None,
            attention_icon_desc: None,
            title: None,
            label: None,
            label_guide: None,
            ordering_index: 0,
            menu: None,
            secondary_activate_target: None,
        }
    }

    /// Like [`AppIndicator::new`], with an explicit icon-theme search path.
    pub fn with_path(title: &str, icon: &str, theme_path: &str) -> (r: AppIndicator)
        ensures
            r@ == IndicatorView::init(title@, icon@, Some(theme_path@)),
            r@.status == AppIndicatorStatus::Passive,
            r@.category == AppIndicatorCategory::ApplicationStatus,
    {
        AppIndicator {
            id: Some(title.to_owned()),
            category: AppIndicatorCategory::ApplicationStatus,
            status: AppIndicatorStatus::Passive,
            icon: Some(icon.to_owned()),
            icon_desc: None,
            icon_theme_path: Some(theme_path.to_owned()),
            attention_icon: None,
            attention_icon_desc: None,
            title: None,
            label: None,
            label_guide: None,
            ordering_index: 0,
            menu: None,
            secondary_activate_target: None,
        }
    }

    /// Sets the status; any value may follow any other.
    pub fn set_status(&mut self, status: AppIndicatorStatus)
        ensures
            final(self)@ == old(self)@.with_status(status),
    {
        self.status = status;
    }

    /// Attaches a menu.  The indicator records the reference only; the
    /// menu's lifetime stays with its own owner.
    pub fn set_menu(&mut self, menu: MenuRef)
        ensures
            final(self)@ == old(self)@.with_menu(menu),
    {
        self.menu = Some(menu);
    }

    /// Sets the label and its accessibility guide text.
    pub fn set_label(&mut self, label: &str, guide: &str)
        ensures
            final(self)@ == old(self)@.with_label(label@, guide@),
    {
        self.label = Some(label.to_owned());
        self.label_guide = Some(guide.to_owned());
    }

    /// Sets the title.
    pub fn set_title(&mut self, title: &str)
        ensures
            final(self)@ == old(self)@.with_title(title@),
    {
        self.title = Some(title.to_owned());
    }

    /// Sets the icon name.
    pub fn set_icon(&mut self, name: &str)
        ensures
            final(self)@ == old(self)@.with_icon(name@),
    {
        self.icon = Some(name.to_owned());
    }

    /// Sets the icon-theme search path.
    pub fn set_icon_theme_path(&mut self, path: &str)
        ensures
            final(self)@ == old(self)@.with_icon_theme_path(path@),
    {
        self.icon_theme_path = Some(path.to_owned());
    }

    /// Sets the icon name together with its description.
    pub fn set_icon_full(&mut self, name: &str, desc: &str)
        ensures
            final(self)@ == old(self)@.with_icon_full(name@, desc@),
    {
        self.icon = Some(name.to_owned());
        self.icon_desc = Some(desc.to_owned());
    }

    /// Sets the attention-icon name.
    pub fn set_attention_icon(&mut self, name: &str)
        ensures
            final(self)@ == old(self)@.with_attention_icon(name@),
    {
        self.attention_icon = Some(name.to_owned());
    }

    /// Sets the attention-icon name together with its description.
    pub fn set_attention_icon_full(&mut self, name: &str, desc: &str)
        ensures
            final(self)@ == old(self)@.with_attention_icon_full(name@, desc@),
    {
        self.attention_icon = Some(name.to_owned());
        self.attention_icon_desc = Some(desc.to_owned());
    }

    /// Sets the secondary-activation target widget.  As with the menu,
    /// only the reference is recorded.
    pub fn set_secondary_activate_target(&mut self, menu_item: WidgetRef)
        ensures
            final(self)@ == old(self)@.with_secondary_activate_target(menu_item),
    {
        self.secondary_activate_target = Some(menu_item);
    }

    /// The identifier given at construction.
    pub fn get_id(&self) -> (r: Result<String, Error>)
        ensures
            self@.id matches Some(t) ==> (r matches Ok(s) && s@ == t),
            self@.id is None ==> (r matches Err(e) && e.spec_reason() == ErrorReason::NullPtr),
    {
        text_field(&self.id)
    }

    /// The category, fixed at construction.
    pub fn get_category(&self) -> (r: AppIndicatorCategory)
        ensures
            r == self@.category,
    {
        self.category
    }

    /// The current status.
    pub fn get_status(&self) -> (r: AppIndicatorStatus)
        ensures
            r == self@.status,
    {
        self.status
    }

    /// The icon name, if one is set.
    pub fn get_icon(&self) -> (r: Result<String, Error>)
        ensures
            self@.icon matches Some(t) ==> (r matches Ok(s) && s@ == t),
            self@.icon is None ==> (r matches Err(e) && e.spec_reason() == ErrorReason::NullPtr),
    {
        text_field(&self.icon)
    }

    /// The icon description, if one is set.
    pub fn get_icon_desc(&self) -> (r: Result<String, Error>)
        ensures
            self@.icon_desc matches Some(t) ==> (r matches Ok(s) && s@ == t),
            self@.icon_desc is None ==> (r matches Err(e) && e.spec_reason()
                == ErrorReason::NullPtr),
    {
        text_field(&self.icon_desc)
    }

    /// The icon-theme search path, if one is set.
    pub fn get_icon_theme_path(&self) -> (r: Result<String, Error>)
        ensures
            self@.icon_theme_path matches Some(t) ==> (r matches Ok(s) && s@ == t),
            self@.icon_theme_path is None ==> (r matches Err(e) && e.spec_reason()
                == ErrorReason::NullPtr),
    {
        text_field(&self.icon_theme_path)
    }

    /// The attention-icon name, if one is set.
    pub fn get_attention_icon(&self) -> (r: Result<String, Error>)
        ensures
            self@.attention_icon matches Some(t) ==> (r matches Ok(s) && s@ == t),
            self@.attention_icon is None ==> (r matches Err(e) && e.spec_reason()
                == ErrorReason::NullPtr),
    {
        text_field(&self.attention_icon)
    }

    /// The attention-icon description, if one is set.
    pub fn get_attention_icon_desc(&self) -> (r: Result<String, Error>)
        ensures
            self@.attention_icon_desc matches Some(t) ==> (r matches Ok(s) && s@ == t),
            self@.attention_icon_desc is None ==> (r matches Err(e) && e.spec_reason()
                == ErrorReason::NullPtr),
    {
        text_field(&self.attention_icon_desc)
    }

    /// The title, if one is set.
    pub fn get_title(&self) -> (r: Result<String, Error>)
        ensures
            self@.title matches Some(t) ==> (r matches Ok(s) && s@ == t),
            self@.title is None ==> (r matches Err(e) && e.spec_reason() == ErrorReason::NullPtr),
    {
        text_field(&self.title)
    }

    /// The attached menu, as a reference to the same underlying toolkit
    /// object every time: successive calls hand back equal references,
    /// never fresh resources.
    pub fn get_menu(&self) -> (r: Option<MenuRef>)
        ensures
            r == self@.menu,
    {
        self.menu
    }

    /// The label, if one is set.
    pub fn get_label(&self) -> (r: Result<String, Error>)
        ensures
            self@.label matches Some(t) ==> (r matches Ok(s) && s@ == t),
            self@.label is None ==> (r matches Err(e) && e.spec_reason() == ErrorReason::NullPtr),
    {
        text_field(&self.label)
    }

    /// The label's guide text, if one is set.
    pub fn get_label_guide(&self) -> (r: Result<String, Error>)
        ensures
            self@.label_guide matches Some(t) ==> (r matches Ok(s) && s@ == t),
            self@.label_guide is None ==> (r matches Err(e) && e.spec_reason()
                == ErrorReason::NullPtr),
    {
        text_field(&self.label_guide)
    }

    /// The ordering index.
    pub fn get_ordering_index(&self) -> (r: u32)
        ensures
            r == self@.ordering_index,
    {
        self.ordering_index
    }

    /// The secondary-activation target, as a reference to the same
    /// underlying toolkit object every time.
    pub fn get_secondary_activate_target(&self) -> (r: Option<WidgetRef>)
        ensures
            r == self@.secondary_activate_target,
    {
        self.secondary_activate_target
    }
}

/// Round trip of the status: after a status is set, reading the status
/// yields exactly the value that was set, for every starting state.
pub proof fn lemma_status_round_trip(v: IndicatorView, status: AppIndicatorStatus)
    ensures
        v.with_status(status).status == status,
{
}

/// Round trip of the title: after a title is set, reading the title
/// yields exactly the text that was set, for every starting state.
pub proof fn lemma_title_round_trip(v: IndicatorView, title: Seq<char>)
    ensures
        v.with_title(title).title == Some(title),
{
}

/// The category is fixed at construction: no mutation the indicator
/// offers changes it.
pub proof fn lemma_category_fixed(
    v: IndicatorView,
    status: AppIndicatorStatus,
    menu: MenuRef,
    target: WidgetRef,
    text: Seq<char>,
    desc: Seq<char>,
)
    ensures
        v.with_status(status).category == v.category,
        v.with_menu(menu).category == v.category,
        v.with_label(text, desc).category == v.category,
        v.with_title(text).category == v.category,
        v.with_icon(text).category == v.category,
        v.with_icon_theme_path(text).category == v.category,
        v.with_icon_full(text, desc).category == v.category,
        v.with_attention_icon(text).category == v.category,
        v.with_attention_icon_full(text, desc).category == v.category,
        v.with_secondary_activate_target(target).category == v.category,
{
}

/// After a menu is attached, reading the menu yields exactly that
/// reference.  The read is a pure function of the state, so two
/// sequential reads with no mutation in between yield the same
/// reference to the same underlying toolkit object.
pub proof fn lemma_menu_round_trip(v: IndicatorView, menu: MenuRef)
    ensures
        v.with_menu(menu).menu == Some(menu),
{
}

} // verus!
