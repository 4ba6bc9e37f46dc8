//! The hosts that are known to run one of the two federated kinds of
//! repository.
use vstd::prelude::*;
use crate::text::str_eq;

verus! {

/// Whether a host is a member repository of DataONE.
pub open spec fn dataone_domain(domain: Seq<char>) -> bool {
    domain == "arcticdata.io"@
        || domain == "knb.ecoinformatics.org"@
        || domain == "data.pndb.fr"@
        || domain == "opc.dataone.org"@
        || domain == "portal.edirepository.org"@
        || domain == "goa.nceas.ucsb.edu"@
        || domain == "data.piscoweb.org"@
        || domain == "adc.arm.gov"@
        || domain == "scidb.cn"@
        || domain == "data.ess-dive.lbl.gov"@
        || domain == "hydroshare.org"@
        || domain == "ecl.earthchem.org"@
        || domain == "get.iedadata.org"@
        || domain == "usap-dc.org"@
        || domain == "iys.hakai.org"@
        || domain == "doi.pangaea.de"@
        || domain == "rvdata.us"@
        || domain == "sead-published.ncsa.illinois.edu"@
}

/// Whether a host is a Dataverse installation.
pub open spec fn dataverse_domain(domain: Seq<char>) -> bool {
    domain == "www.march.es"@
        || domain == "www.murray.harvard.edu"@
        || domain == "abacus.library.ubc.ca"@
        || domain == "ada.edu.au"@
        || domain == "adattar.unideb.hu"@
        || domain == "archive.data.jhu.edu"@
        || domain == "borealisdata.ca"@
        || domain == "dados.ipb.pt"@
        || domain == "dadosdepesquisa.fiocruz.br"@
        || domain == "darus.uni-stuttgart.de"@
        || domain == "data.aussda.at"@
        || domain == "data.cimmyt.org"@
        || domain == "data.fz-juelich.de"@
        || domain == "data.goettingen-research-online.de"@
        || domain == "data.inrae.fr"@
        || domain == "data.scielo.org"@
        || domain == "data.sciencespo.fr"@
        || domain == "data.tdl.org"@
        || domain == "data.univ-gustave-eiffel.fr"@
        || domain == "datarepositorium.uminho.pt"@
        || domain == "datasets.iisg.amsterdam"@
        || domain == "dataspace.ust.hk"@
        || domain == "dataverse.asu.edu"@
        || domain == "dataverse.cirad.fr"@
        || domain == "dataverse.csuc.cat"@
        || domain == "dataverse.harvard.edu"@
        || domain == "dataverse.iit.it"@
        || domain == "dataverse.ird.fr"@
        || domain == "dataverse.lib.umanitoba.ca"@
        || domain == "dataverse.lib.unb.ca"@
        || domain == "dataverse.lib.virginia.edu"@
        || domain == "dataverse.nl"@
        || domain == "dataverse.no"@
        || domain == "dataverse.openforestdata.pl"@
        || domain == "dataverse.scholarsportal.info"@
        || domain == "dataverse.theacss.org"@
        || domain == "dataverse.ucla.edu"@
        || domain == "dataverse.unc.edu"@
        || domain == "dataverse.unimi.it"@
        || domain == "dataverse.yale-nus.edu.sg"@
        || domain == "dorel.univ-lorraine.fr"@
        || domain == "dvn.fudan.edu.cn"@
        || domain == "edatos.consorciomadrono.es"@
        || domain == "edmond.mpdl.mpg.de"@
        || domain == "heidata.uni-heidelberg.de"@
        || domain == "lida.dataverse.lt"@
        || domain == "mxrdr.icm.edu.pl"@
        || domain == "osnadata.ub.uni-osnabrueck.de"@
        || domain == "planetary-data-portal.org"@
        || domain == "qdr.syr.edu"@
        || domain == "rdm.aau.edu.et"@
        || domain == "rdr.kuleuven.be"@
        || domain == "rds.icm.edu.pl"@
        || domain == "recherche.data.gouv.fr"@
        || domain == "redu.unicamp.br"@
        || domain == "repod.icm.edu.pl"@
        || domain == "repositoriopesquisas.ibict.br"@
        || domain == "research-data.urosario.edu.co"@
        || domain == "researchdata.cuhk.edu.hk"@
        || domain == "researchdata.ntu.edu.sg"@
        || domain == "rin.lipi.go.id"@
        || domain == "ssri.is"@
        || domain == "www.seanoe.org"@
        || domain == "trolling.uit.no"@
        || domain == "www.sodha.be"@
        || domain == "www.uni-hildesheim.de"@
        || domain == "dataverse.acg.maine.edu"@
        || domain == "dataverse.icrisat.org"@
        || domain == "datos.pucp.edu.pe"@
        || domain == "datos.uchile.cl"@
        || domain == "opendata.pku.edu.cn"@
}

/// Whether a host is a member repository of DataONE.
pub fn is_dataone_domain(domain: &str) -> (r: bool)
    ensures
        r == dataone_domain(domain@),
{
    str_eq(domain, "arcticdata.io")
        || str_eq(domain, "knb.ecoinformatics.org")
        || str_eq(domain, "data.pndb.fr")
        || str_eq(domain, "opc.dataone.org")
        || str_eq(domain, "portal.edirepository.org")
        || str_eq(domain, "goa.nceas.ucsb.edu")
        || str_eq(domain, "data.piscoweb.org")
        || str_eq(domain, "adc.arm.gov")
        || str_eq(domain, "scidb.cn")
        || str_eq(domain, "data.ess-dive.lbl.gov")
        || str_eq(domain, "hydroshare.org")
        || str_eq(domain, "ecl.earthchem.org")
        || str_eq(domain, "get.iedadata.org")
        || str_eq(domain, "usap-dc.org")
        || str_eq(domain, "iys.hakai.org")
        || str_eq(domain, "doi.pangaea.de")
        || str_eq(domain, "rvdata.us")
        || str_eq(domain, "sead-published.ncsa.illinois.edu")
}

/// Whether a host is a Dataverse installation.
pub fn is_dataverse_domain(domain: &str) -> (r: bool)
    ensures
        r == dataverse_domain(domain@),
{
    str_eq(domain, "www.march.es")
        || str_eq(domain, "www.murray.harvard.edu")
        || str_eq(domain, "abacus.library.ubc.ca")
        || str_eq(domain, "ada.edu.au")
        || str_eq(domain, "adattar.unideb.hu")
        || str_eq(domain, "archive.data.jhu.edu")
        || str_eq(domain, "borealisdata.ca")
        || str_eq(domain, "dados.ipb.pt")
        || str_eq(domain, "dadosdepesquisa.fiocruz.br")
        || str_eq(domain, "darus.uni-stuttgart.de")
        || str_eq(domain, "data.aussda.at")
        || str_eq(domain, "data.cimmyt.org")
        || str_eq(domain, "data.fz-juelich.de")
        || str_eq(domain, "data.goettingen-research-online.de")
        || str_eq(domain, "data.inrae.fr")
        || str_eq(domain, "data.scielo.org")
        || str_eq(domain, "data.sciencespo.fr")
        || str_eq(domain, "data.tdl.org")
        || str_eq(domain, "data.univ-gustave-eiffel.fr")
        || str_eq(domain, "datarepositorium.uminho.pt")
        || str_eq(domain, "datasets.iisg.amsterdam")
        || str_eq(domain, "dataspace.ust.hk")
        || str_eq(domain, "dataverse.asu.edu")
        || str_eq(domain, "dataverse.cirad.fr")
        || str_eq(domain, "dataverse.csuc.cat")
        || str_eq(domain, "dataverse.harvard.edu")
        || str_eq(domain, "dataverse.iit.it")
        || str_eq(domain, "dataverse.ird.fr")
        || str_eq(domain, "dataverse.lib.umanitoba.ca")
        || str_eq(domain, "dataverse.lib.unb.ca")
        || str_eq(domain, "dataverse.lib.virginia.edu")
        || str_eq(domain, "dataverse.nl")
        || str_eq(domain, "dataverse.no")
        || str_eq(domain, "dataverse.openforestdata.pl")
        || str_eq(domain, "dataverse.scholarsportal.info")
        || str_eq(domain, "dataverse.theacss.org")
        || str_eq(domain, "dataverse.ucla.edu")
        || str_eq(domain, "dataverse.unc.edu")
        || str_eq(domain, "dataverse.unimi.it")
        || str_eq(domain, "dataverse.yale-nus.edu.sg")
        || str_eq(domain, "dorel.univ-lorraine.fr")
        || str_eq(domain, "dvn.fudan.edu.cn")
        || str_eq(domain, "edatos.consorciomadrono.es")
        || str_eq(domain, "edmond.mpdl.mpg.de")
        || str_eq(domain, "heidata.uni-heidelberg.de")
        || str_eq(domain, "lida.dataverse.lt")
        || str_eq(domain, "mxrdr.icm.edu.pl")
        || str_eq(domain, "osnadata.ub.uni-osnabrueck.de")
        || str_eq(domain, "planetary-data-portal.org")
        || str_eq(domain, "qdr.syr.edu")
        || str_eq(domain, "rdm.aau.edu.et")
        || str_eq(domain, "rdr.kuleuven.be")
        || str_eq(domain, "rds.icm.edu.pl")
        || str_eq(domain, "recherche.data.gouv.fr")
        || str_eq(domain, "redu.unicamp.br")
        || str_eq(domain, "repod.icm.edu.pl")
        || str_eq(domain, "repositoriopesquisas.ibict.br")
        || str_eq(domain, "research-data.urosario.edu.co")
        || str_eq(domain, "researchdata.cuhk.edu.hk")
        || str_eq(domain, "researchdata.ntu.edu.sg")
        || str_eq(domain, "rin.lipi.go.id")
        || str_eq(domain, "ssri.is")
        || str_eq(domain, "www.seanoe.org")
        || str_eq(domain, "trolling.uit.no")
        || str_eq(domain, "www.sodha.be")
        || str_eq(domain, "www.uni-hildesheim.de")
        || str_eq(domain, "dataverse.acg.maine.edu")
        || str_eq(domain, "dataverse.icrisat.org")
        || str_eq(domain, "datos.pucp.edu.pe")
        || str_eq(domain, "datos.uchile.cl")
        || str_eq(domain, "opendata.pku.edu.cn")
}

} // verus!
