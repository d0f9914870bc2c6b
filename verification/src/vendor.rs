//! What is particular to one vendor's deployment of the account API: where
//! it lives and how a browser of its customer portal presents itself.

use vstd::prelude::*;

verus! {

/// The fixed values of one vendor's API. A session is made with a profile
/// and every request of the session is drawn from it.
#[derive(Clone, Copy, Debug)]
pub struct VendorProfile {
    /// Scheme and host of the API, without a trailing slash.
    pub api_base: &'static str,
    /// Path of the bill-detail endpoint.
    pub bill_detail_path: &'static str,
    /// Path of the identity-verification endpoint.
    pub verify_path: &'static str,
    /// Value of the `origin` header: the customer portal.
    pub portal_origin: &'static str,
    /// Value of the `referer` header: the customer portal's front page.
    pub portal_referer: &'static str,
    /// Value of the `st` header, a channel tag that the vendor requires.
    pub channel_tag: &'static str,
    /// The browser that the HTTP client says it is.
    pub user_agent: &'static str,
}

impl VendorProfile {
    /// The values of Liberty's account API, for use in contracts.
    pub open spec fn liberty_profile() -> VendorProfile {
        VendorProfile {
            api_base: "https://libertycf2-svc.smartcmobile.com",
            bill_detail_path: "/CISAPI/api/1/account/GetBillDetailPDF",
            verify_path: "/UserManagementAPI/api/1/users/VerifyDetailsByZip",
            portal_origin: "https://myaccount.libertyenergyandwater.com",
            portal_referer: "https://myaccount.libertyenergyandwater.com/",
            channel_tag: "PL",
            user_agent: "Mozilla/5.0 (Windows NT 10.0; Win64; x64) AppleWebKit/537.36 (KHTML, like Gecko) Chrome/120.0.0.0 Safari/537.36",
        }
    }

    /// The profile of Liberty's account API.
    pub fn liberty() -> (r: VendorProfile)
        ensures
            r == VendorProfile::liberty_profile(),
    {
        VendorProfile {
            api_base: "https://libertycf2-svc.smartcmobile.com",
            bill_detail_path: "/CISAPI/api/1/account/GetBillDetailPDF",
            verify_path: "/UserManagementAPI/api/1/users/VerifyDetailsByZip",
            portal_origin: "https://myaccount.libertyenergyandwater.com",
            portal_referer: "https://myaccount.libertyenergyandwater.com/",
            channel_tag: "PL",
            user_agent: "Mozilla/5.0 (Windows NT 10.0; Win64; x64) AppleWebKit/537.36 (KHTML, like Gecko) Chrome/120.0.0.0 Safari/537.36",
        }
    }
}

} // verus!
