//! The request/response lookup operations: for each one, the request path,
//! the query parameters, and the exact status-code table.
//!
//! Building and sending the HTTP request is the caller's; what is stated and
//! proved here is everything the operation itself decides: which path and
//! parameters describe it, and what each status code means.

use crate::text::{dec_digits, push_str, u64_to_decimal};
use crate::unexpected_status::UnexpectedStatusError;
use crate::unrecognised::UnrecognisedResponse;
use vstd::prelude::*;

verus! {

/// The views of a parameter list, for stating contracts over it.
pub open spec fn param_views(ps: Seq<(String, String)>) -> Seq<(Seq<char>, Seq<char>)> {
    ps.map_values(|p: (String, String)| (p.0@, p.1@))
}

/// The optional paging parameters every search operation shares.
pub open spec fn page_params(items_per_page: Option<usize>, start_index: Option<usize>) -> Seq<
    (Seq<char>, Seq<char>),
> {
    (match items_per_page {
        Some(n) => seq![("items_per_page"@, dec_digits(n as nat))],
        None => Seq::empty(),
    }) + (match start_index {
        Some(n) => seq![("start_index"@, dec_digits(n as nat))],
        None => Seq::empty(),
    })
}

fn push_page_params(
    r: &mut Vec<(String, String)>,
    items_per_page: Option<usize>,
    start_index: Option<usize>,
)
    ensures
        param_views(final(r)@) == param_views(old(r)@) + page_params(items_per_page, start_index),
{
    match items_per_page {
        Some(n) => {
            r.push(("items_per_page".to_owned(), u64_to_decimal(n as u64)));
        },
        None => {},
    }
    match start_index {
        Some(n) => {
            r.push(("start_index".to_owned(), u64_to_decimal(n as u64)));
        },
        None => {},
    }
    proof {
        assert(param_views(r@) =~= param_views(old(r)@) + page_params(
            items_per_page,
            start_index,
        ));
    }
}

/// Get the basic company information.
#[derive(Debug, Clone, PartialEq)]
pub struct GetCompanyProfile {
    pub company_number: String,
}

/// How a company-profile lookup fails.
#[derive(Debug, Clone, PartialEq)]
pub enum GetCompanyProfileStatusError {
    Unauthorized,
    NotFound,
    UnexpectedStatus(UnexpectedStatusError),
}

impl GetCompanyProfile {
    /// The request path: `/company/{company_number}`.
    pub fn path(&self) -> (r: String)
        ensures
            r@ == "/company/"@ + self.company_number@,
    {
        let mut s = String::new();
        push_str(&mut s, "/company/");
        push_str(&mut s, self.company_number.as_str());
        proof {
            assert(s@ =~= "/company/"@ + self.company_number@);
        }
        s
    }

    /// The status table: 200 succeeds, 401 and 404 have their own names,
    /// anything else is unexpected.
    pub fn handle_status(&self, status: u16) -> (r: Result<(), GetCompanyProfileStatusError>)
        ensures
            r is Ok <==> status == 200,
            status == 401 ==> r == Err::<(), _>(GetCompanyProfileStatusError::Unauthorized),
            status == 404 ==> r == Err::<(), _>(GetCompanyProfileStatusError::NotFound),
            status != 200 && status != 401 && status != 404 ==> r == Err::<(), _>(
                GetCompanyProfileStatusError::UnexpectedStatus(
                    UnexpectedStatusError { status_code: status },
                ),
            ),
    {
        if status == 200 {
            Ok(())
        } else if status == 401 {
            Err(GetCompanyProfileStatusError::Unauthorized)
        } else if status == 404 {
            Err(GetCompanyProfileStatusError::NotFound)
        } else {
            Err(
                GetCompanyProfileStatusError::UnexpectedStatus(
                    UnexpectedStatusError { status_code: status },
                ),
            )
        }
    }
}

/// Get the current registered office address of a company.
#[derive(Debug, Clone, PartialEq)]
pub struct GetCompanyRegisteredOfficeAddress {
    pub company_number: String,
}

/// How a registered-office-address lookup fails.
#[derive(Debug, Clone, PartialEq)]
pub enum GetCompanyRegisteredOfficeAddressStatusError {
    Unauthorized,
    NotFound,
    UnexpectedStatus(UnexpectedStatusError),
}

impl GetCompanyRegisteredOfficeAddress {
    /// The request path: `/company/{company_number}/registered-office-address`.
    pub fn path(&self) -> (r: String)
        ensures
            r@ == "/company/"@ + self.company_number@ + "/registered-office-address"@,
    {
        let mut s = String::new();
        push_str(&mut s, "/company/");
        push_str(&mut s, self.company_number.as_str());
        push_str(&mut s, "/registered-office-address");
        proof {
            assert(s@ =~= "/company/"@ + self.company_number@ + "/registered-office-address"@);
        }
        s
    }

    /// The status table: 200 succeeds, 401 and 404 have their own names,
    /// anything else is unexpected.
    pub fn handle_status(&self, status: u16) -> (r: Result<
        (),
        GetCompanyRegisteredOfficeAddressStatusError,
    >)
        ensures
            r is Ok <==> status == 200,
            status == 401 ==> r == Err::<(), _>(
                GetCompanyRegisteredOfficeAddressStatusError::Unauthorized,
            ),
            status == 404 ==> r == Err::<(), _>(
                GetCompanyRegisteredOfficeAddressStatusError::NotFound,
            ),
            status != 200 && status != 401 && status != 404 ==> r == Err::<(), _>(
                GetCompanyRegisteredOfficeAddressStatusError::UnexpectedStatus(
                    UnexpectedStatusError { status_code: status },
                ),
            ),
    {
        if status == 200 {
            Ok(())
        } else if status == 401 {
            Err(GetCompanyRegisteredOfficeAddressStatusError::Unauthorized)
        } else if status == 404 {
            Err(GetCompanyRegisteredOfficeAddressStatusError::NotFound)
        } else {
            Err(
                GetCompanyRegisteredOfficeAddressStatusError::UnexpectedStatus(
                    UnexpectedStatusError { status_code: status },
                ),
            )
        }
    }
}

/// Search company information.
#[derive(Debug, Clone, PartialEq)]
pub struct SearchCompanies {
    /// The term being searched for.
    pub query: String,
    /// The number of search results to return per page.
    pub items_per_page: Option<usize>,
    /// The index of the first result item to return.
    pub start_index: Option<usize>,
    /// Space-separated options restricting the results, e.g.
    /// `active-companies legally-equivalent-company-name`.
    pub restrictions: Option<String>,
}

/// How a company search fails, once status and body are both known: the
/// caller combines [`SearchCompanies::handle_status`] with the classified
/// body of an unrecognised response.
#[derive(Debug)]
pub enum SearchCompaniesError {
    Unauthorized,
    UnrecognisedResponse(UnrecognisedResponse),
}

/// What a company-search status code means before the body is read.
#[derive(Debug, Clone, Copy, PartialEq, Eq, Structural)]
pub enum SearchCompaniesStatus {
    /// 200: read the body as a result page.
    Accepted,
    /// 401: the credentials were rejected.
    Unauthorized,
    /// Anything else: read the body only to classify the response.
    Unrecognised,
}

impl SearchCompanies {
    /// The request path.
    pub fn path(&self) -> (r: String)
        ensures
            r@ == "/search/companies"@,
    {
        let mut s = String::new();
        push_str(&mut s, "/search/companies");
        proof {
            assert(s@ =~= "/search/companies"@);
        }
        s
    }

    /// The query parameters: the term, then the paging parameters, then the
    /// restrictions, each present exactly when set.
    pub fn query_params(&self) -> (r: Vec<(String, String)>)
        ensures
            param_views(r@) == seq![("q"@, self.query@)] + page_params(
                self.items_per_page,
                self.start_index,
            ) + (match self.restrictions {
                Some(t) => seq![("restrictions"@, t@)],
                None => Seq::empty(),
            }),
    {
        let mut r: Vec<(String, String)> = Vec::new();
        r.push(("q".to_owned(), self.query.clone()));
        proof {
            assert(param_views(r@) =~= seq![("q"@, self.query@)]);
        }
        push_page_params(&mut r, self.items_per_page, self.start_index);
        match &self.restrictions {
            Some(t) => {
                r.push(("restrictions".to_owned(), t.clone()));
            },
            None => {},
        }
        proof {
            assert(param_views(r@) =~= seq![("q"@, self.query@)] + page_params(
                self.items_per_page,
                self.start_index,
            ) + (match self.restrictions {
                Some(t) => seq![("restrictions"@, t@)],
                None => Seq::<(Seq<char>, Seq<char>)>::empty(),
            }));
        }
        r
    }

    /// The status table: 200 delivers a page, 401 is a credentials failure,
    /// and any other status leaves the response to be classified whole.
    pub fn handle_status(&self, status: u16) -> (r: SearchCompaniesStatus)
        ensures
            r == SearchCompaniesStatus::Accepted <==> status == 200,
            r == SearchCompaniesStatus::Unauthorized <==> status == 401,
            r == SearchCompaniesStatus::Unrecognised <==> status != 200 && status != 401,
    {
        if status == 200 {
            SearchCompaniesStatus::Accepted
        } else if status == 401 {
            SearchCompaniesStatus::Unauthorized
        } else {
            SearchCompaniesStatus::Unrecognised
        }
    }
}

/// Search officer information.
#[derive(Debug, Clone, PartialEq)]
pub struct SearchOfficers {
    /// The term being searched for.
    pub query: String,
    /// The number of search results to return per page.
    pub items_per_page: Option<usize>,
    /// The index of the first result item to return.
    pub start_index: Option<usize>,
}

/// How an officer search fails.
#[derive(Debug, Clone, PartialEq)]
pub enum SearchOfficersStatusError {
    Unauthorized,
    UnexpectedStatus(UnexpectedStatusError),
}

impl SearchOfficers {
    /// The request path.
    pub fn path(&self) -> (r: String)
        ensures
            r@ == "/search/officers"@,
    {
        let mut s = String::new();
        push_str(&mut s, "/search/officers");
        proof {
            assert(s@ =~= "/search/officers"@);
        }
        s
    }

    /// The query parameters: the term, then the paging parameters.
    pub fn query_params(&self) -> (r: Vec<(String, String)>)
        ensures
            param_views(r@) == seq![("q"@, self.query@)] + page_params(
                self.items_per_page,
                self.start_index,
            ),
    {
        let mut r: Vec<(String, String)> = Vec::new();
        r.push(("q".to_owned(), self.query.clone()));
        proof {
            assert(param_views(r@) =~= seq![("q"@, self.query@)]);
        }
        push_page_params(&mut r, self.items_per_page, self.start_index);
        r
    }

    /// The status table: 200 succeeds, 401 has its own name, anything else
    /// is unexpected.
    pub fn handle_status(&self, status: u16) -> (r: Result<(), SearchOfficersStatusError>)
        ensures
            r is Ok <==> status == 200,
            status == 401 ==> r == Err::<(), _>(SearchOfficersStatusError::Unauthorized),
            status != 200 && status != 401 ==> r == Err::<(), _>(
                SearchOfficersStatusError::UnexpectedStatus(
                    UnexpectedStatusError { status_code: status },
                ),
            ),
    {
        if status == 200 {
            Ok(())
        } else if status == 401 {
            Err(SearchOfficersStatusError::Unauthorized)
        } else {
            Err(
                SearchOfficersStatusError::UnexpectedStatus(
                    UnexpectedStatusError { status_code: status },
                ),
            )
        }
    }
}

/// Search for disqualified officer information.
#[derive(Debug, Clone, PartialEq)]
pub struct SearchDisqualifiedOfficers {
    /// The term being searched for.
    pub query: String,
    /// The number of search results to return per page.
    pub items_per_page: Option<usize>,
    /// The index of the first result item to return.
    pub start_index: Option<usize>,
}

/// How a disqualified-officer search fails.
#[derive(Debug, Clone, PartialEq)]
pub enum SearchDisqualifiedOfficersStatusError {
    Unauthorized,
    UnexpectedStatus(UnexpectedStatusError),
}

impl SearchDisqualifiedOfficers {
    /// The request path.
    pub fn path(&self) -> (r: String)
        ensures
            r@ == "/search/disqualified-officers"@,
    {
        let mut s = String::new();
        push_str(&mut s, "/search/disqualified-officers");
        proof {
            assert(s@ =~= "/search/disqualified-officers"@);
        }
        s
    }

    /// The query parameters: the term, then the paging parameters.
    pub fn query_params(&self) -> (r: Vec<(String, String)>)
        ensures
            param_views(r@) == seq![("q"@, self.query@)] + page_params(
                self.items_per_page,
                self.start_index,
            ),
    {
        let mut r: Vec<(String, String)> = Vec::new();
        r.push(("q".to_owned(), self.query.clone()));
        proof {
            assert(param_views(r@) =~= seq![("q"@, self.query@)]);
        }
        push_page_params(&mut r, self.items_per_page, self.start_index);
        r
    }

    /// The status table: 200 succeeds, 401 has its own name, anything else
    /// is unexpected.
    pub fn handle_status(&self, status: u16) -> (r: Result<
        (),
        SearchDisqualifiedOfficersStatusError,
    >)
        ensures
            r is Ok <==> status == 200,
            status == 401 ==> r == Err::<(), _>(
                SearchDisqualifiedOfficersStatusError::Unauthorized,
            ),
            status != 200 && status != 401 ==> r == Err::<(), _>(
                SearchDisqualifiedOfficersStatusError::UnexpectedStatus(
                    UnexpectedStatusError { status_code: status },
                ),
            ),
    {
        if status == 200 {
            Ok(())
        } else if status == 401 {
            Err(SearchDisqualifiedOfficersStatusError::Unauthorized)
        } else {
            Err(
                SearchDisqualifiedOfficersStatusError::UnexpectedStatus(
                    UnexpectedStatusError { status_code: status },
                ),
            )
        }
    }
}

} // verus!
