//! Rendering of a destination path template against a calendar date.
//! The template may hold the tokens `{yyyy}`, `{mm}` and `{dd}`; any
//! brace left over after substitution is a configuration error.

use vstd::prelude::*;
use crate::date::Date;
use crate::directory_path::VirtualDirectoryPath;
use crate::error::AppError;
use crate::error::AppResult;
use crate::text::chars_to_string;
use crate::text::contains_char;
use crate::text::dec_digits;
use crate::text::pad_left_chars;
use crate::text::pad_left_spec;
use crate::text::replace_all;
use crate::text::replace_all_spec;
use crate::text::str_to_chars;
use crate::text::u32_dec_chars;

verus! {

/// The template after substituting the year for `{yyyy}`, the
/// zero-padded month for `{mm}` and the zero-padded day for `{dd}`.
pub open spec fn render_spec(template: Seq<char>, date: Date) -> Seq<char> {
    let with_year = replace_all_spec(template, "{yyyy}"@, dec_digits(date.year as int));
    let with_month = replace_all_spec(with_year, "{mm}"@, pad_left_spec(date.month as int, 2, '0'));
    replace_all_spec(with_month, "{dd}"@, pad_left_spec(date.day as int, 2, '0'))
}

/// Renders date tokens in a destination path template.
#[derive(Debug)]
pub struct PathTemplateRenderer {
    template: VirtualDirectoryPath,
}

impl PathTemplateRenderer {
    /// The template being rendered.
    pub closed spec fn template_view(&self) -> Seq<char> {
        self.template@
    }

    /// Wraps a not-yet-existing path whose text may hold date tokens.
    pub fn new(template: VirtualDirectoryPath) -> (r: PathTemplateRenderer)
        ensures
            r.template_view() == template@,
    {
        PathTemplateRenderer { template }
    }

    /// Substitutes the date into the template. The rendered path is
    /// returned as text for the caller to materialize; a brace that
    /// survives substitution names an unknown token and is rejected.
    pub fn render(&self, date: &Date) -> (r: AppResult<String>)
        ensures
            ({
                let rendered = render_spec(self.template_view(), *date);
                &&& (!rendered.contains('{') && !rendered.contains('}')) ==> (r matches Ok(p)
                    && p@ == rendered)
                &&& (rendered.contains('{') || rendered.contains('}')) ==> (r matches Err(e)
                    && e matches AppError::InvalidInput(m) && m@ == rendered)
            }),
    {
        let template_chars = str_to_chars(self.template.to_str());
        let year_pat = str_to_chars("{yyyy}");
        let month_pat = str_to_chars("{mm}");
        let day_pat = str_to_chars("{dd}");
        proof {
            reveal_strlit("{yyyy}");
            reveal_strlit("{mm}");
            reveal_strlit("{dd}");
        }
        let year_text = u32_dec_chars(date.year);
        let month_text = pad_left_chars(date.month, 2, '0');
        let day_text = pad_left_chars(date.day, 2, '0');
        let with_year = replace_all(&template_chars, &year_pat, &year_text);
        let with_month = replace_all(&with_year, &month_pat, &month_text);
        let rendered = replace_all(&with_month, &day_pat, &day_text);
        if contains_char(&rendered, '{') || contains_char(&rendered, '}') {
            Err(AppError::InvalidInput(chars_to_string(&rendered)))
        } else {
            Ok(chars_to_string(&rendered))
        }
    }
}

} // verus!
