//! Categories of the catalog.

use crate::common::Image;
use crate::common::Locale;
use crate::common::QueryParameter;
use crate::common::QueryParameterView;
use crate::text::views;
use crate::text::same_text;
use vstd::prelude::*;
use vstd::string::StringExecFns;

verus! {

/// A genre. One that the library does not know is kept under its own name.
#[derive(Clone, Debug)]
pub enum Category {
    Action,
    Adventure,
    Comedy,
    Drama,
    Fantasy,
    Music,
    Romance,
    SciFi,
    Seinen,
    Shojo,
    Shonen,
    SliceOfLife,
    Sports,
    Supernatural,
    Thriller,
    Custom(String),
}

/// The mathematical value of a [`Category`].
pub enum CategoryView {
    Action,
    Adventure,
    Comedy,
    Drama,
    Fantasy,
    Music,
    Romance,
    SciFi,
    Seinen,
    Shojo,
    Shonen,
    SliceOfLife,
    Sports,
    Supernatural,
    Thriller,
    Custom(Seq<char>),
}

impl View for Category {
    type V = CategoryView;

    open spec fn view(&self) -> CategoryView {
        match self {
            Category::Action => CategoryView::Action,
            Category::Adventure => CategoryView::Adventure,
            Category::Comedy => CategoryView::Comedy,
            Category::Drama => CategoryView::Drama,
            Category::Fantasy => CategoryView::Fantasy,
            Category::Music => CategoryView::Music,
            Category::Romance => CategoryView::Romance,
            Category::SciFi => CategoryView::SciFi,
            Category::Seinen => CategoryView::Seinen,
            Category::Shojo => CategoryView::Shojo,
            Category::Shonen => CategoryView::Shonen,
            Category::SliceOfLife => CategoryView::SliceOfLife,
            Category::Sports => CategoryView::Sports,
            Category::Supernatural => CategoryView::Supernatural,
            Category::Thriller => CategoryView::Thriller,
            Category::Custom(name) => CategoryView::Custom(name@),
        }
    }
}

/// The category that the service writes under a name.
pub open spec fn category_of(name: Seq<char>) -> CategoryView {
    if name == "action"@ {
        CategoryView::Action
    } else if name == "adventure"@ {
        CategoryView::Adventure
    } else if name == "comedy"@ {
        CategoryView::Comedy
    } else if name == "drama"@ {
        CategoryView::Drama
    } else if name == "fantasy"@ {
        CategoryView::Fantasy
    } else if name == "music"@ {
        CategoryView::Music
    } else if name == "romance"@ {
        CategoryView::Romance
    } else if name == "sci-fi"@ {
        CategoryView::SciFi
    } else if name == "seinen"@ {
        CategoryView::Seinen
    } else if name == "shojo"@ {
        CategoryView::Shojo
    } else if name == "shonen"@ {
        CategoryView::Shonen
    } else if name == "slice-of-life"@ {
        CategoryView::SliceOfLife
    } else if name == "sports"@ {
        CategoryView::Sports
    } else if name == "supernatural"@ {
        CategoryView::Supernatural
    } else if name == "thriller"@ {
        CategoryView::Thriller
    } else {
        CategoryView::Custom(name)
    }
}

/// The name under which the service writes a category.
pub open spec fn category_name(category: CategoryView) -> Seq<char> {
    match category {
        CategoryView::Action => "action"@,
        CategoryView::Adventure => "adventure"@,
        CategoryView::Comedy => "comedy"@,
        CategoryView::Drama => "drama"@,
        CategoryView::Fantasy => "fantasy"@,
        CategoryView::Music => "music"@,
        CategoryView::Romance => "romance"@,
        CategoryView::SciFi => "sci-fi"@,
        CategoryView::Seinen => "seinen"@,
        CategoryView::Shojo => "shojo"@,
        CategoryView::Shonen => "shonen"@,
        CategoryView::SliceOfLife => "slice-of-life"@,
        CategoryView::Sports => "sports"@,
        CategoryView::Supernatural => "supernatural"@,
        CategoryView::Thriller => "thriller"@,
        CategoryView::Custom(name) => name,
    }
}

impl Category {
    /// The category with the given name.
    pub fn from_name(name: &str) -> (r: Category)
        ensures
            r@ == category_of(name@),
    {
        if same_text(name, "action") {
            Category::Action
        } else if same_text(name, "adventure") {
            Category::Adventure
        } else if same_text(name, "comedy") {
            Category::Comedy
        } else if same_text(name, "drama") {
            Category::Drama
        } else if same_text(name, "fantasy") {
            Category::Fantasy
        } else if same_text(name, "music") {
            Category::Music
        } else if same_text(name, "romance") {
            Category::Romance
        } else if same_text(name, "sci-fi") {
            Category::SciFi
        } else if same_text(name, "seinen") {
            Category::Seinen
        } else if same_text(name, "shojo") {
            Category::Shojo
        } else if same_text(name, "shonen") {
            Category::Shonen
        } else if same_text(name, "slice-of-life") {
            Category::SliceOfLife
        } else if same_text(name, "sports") {
            Category::Sports
        } else if same_text(name, "supernatural") {
            Category::Supernatural
        } else if same_text(name, "thriller") {
            Category::Thriller
        } else {
            Category::Custom(String::from_str(name))
        }
    }

    /// The name of the category.
    pub fn name(&self) -> (r: String)
        ensures
            r@ == category_name(self@),
    {
        match self {
            Category::Action => String::from_str("action"),
            Category::Adventure => String::from_str("adventure"),
            Category::Comedy => String::from_str("comedy"),
            Category::Drama => String::from_str("drama"),
            Category::Fantasy => String::from_str("fantasy"),
            Category::Music => String::from_str("music"),
            Category::Romance => String::from_str("romance"),
            Category::SciFi => String::from_str("sci-fi"),
            Category::Seinen => String::from_str("seinen"),
            Category::Shojo => String::from_str("shojo"),
            Category::Shonen => String::from_str("shonen"),
            Category::SliceOfLife => String::from_str("slice-of-life"),
            Category::Sports => String::from_str("sports"),
            Category::Supernatural => String::from_str("supernatural"),
            Category::Thriller => String::from_str("thriller"),
            Category::Custom(name) => name.clone(),
        }
    }

    /// The category that a tenant category stands for.
    pub fn from_tenant_category(tenant_category: &TenantCategory) -> (r: Category)
        ensures
            r@ == category_of(tenant_category.category@),
    {
        Category::from_name(tenant_category.category.as_str())
    }
}

/// The pictures of a category.
#[derive(Clone, Debug, Default)]
pub struct TenantCategoryImages {
    pub background: Vec<Image>,
    pub low: Vec<Image>,
}

/// Title and description of a category in one language.
#[derive(Clone, Debug, Default)]
pub struct TenantCategoryLocalization {
    pub title: String,
    pub description: String,
    pub locale: Locale,
}

/// A category below another.
#[derive(Clone, Debug, Default)]
pub struct SubTenantCategory {
    pub category: String,
    pub parent_category: String,
    pub slug: String,
    pub localization: TenantCategoryLocalization,
}

/// A category as the service describes it.
#[derive(Clone, Debug, Default)]
pub struct TenantCategory {
    pub category: String,
    pub slug: String,
    pub sub_categories: Vec<SubTenantCategory>,
    pub images: TenantCategoryImages,
    pub localization: TenantCategoryLocalization,
}

/// What to ask of the list of categories.
#[derive(Clone, Copy, Debug)]
pub struct TenantCategoryOptions {
    /// Whether each category comes with the categories below it; left to
    /// the service where nothing is said.
    pub include_subcategories: Option<bool>,
}

impl Default for TenantCategoryOptions {
    fn default() -> (r: TenantCategoryOptions)
        ensures
            r.include_subcategories == Some(false),
    {
        TenantCategoryOptions { include_subcategories: Some(false) }
    }
}

/// How a flag is written in a query.
pub open spec fn flag_text(flag: bool) -> Seq<char> {
    if flag {
        "true"@
    } else {
        "false"@
    }
}

impl TenantCategoryOptions {
    /// The same options with the categories below each category, or without.
    pub fn include_subcategories(self, value: bool) -> (r: TenantCategoryOptions)
        ensures
            r.include_subcategories == Some(value),
    {
        TenantCategoryOptions { include_subcategories: Some(value) }
    }

    /// The parameters of the request: every option that says something,
    /// then the language.
    pub open spec fn spec_parameters(self, locale: Seq<char>) -> Seq<QueryParameterView> {
        (match self.include_subcategories {
            Some(flag) => seq![
                QueryParameterView { name: "include_subcategories"@, value: flag_text(flag) },
            ],
            None => Seq::empty(),
        }) + seq![QueryParameterView { name: "locale"@, value: locale }]
    }

    /// The parameters of the request for the list of categories.
    pub fn parameters(&self, locale: &Locale) -> (r: Vec<QueryParameter>)
        ensures
            views(r@) == self.spec_parameters(locale.tag@),
    {
        let mut out: Vec<QueryParameter> = Vec::new();
        match self.include_subcategories {
            Some(flag) => {
                let text = if flag {
                    "true"
                } else {
                    "false"
                };
                out.push(QueryParameter::new("include_subcategories", text));
            },
            None => {},
        }
        out.push(QueryParameter::new("locale", locale.tag.as_str()));
        assert(views(out@) =~= self.spec_parameters(locale.tag@));
        out
    }
}

} // verus!
