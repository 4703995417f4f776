//! The certified power of six: a square-and-multiply chain, carried out
//! step by step inside the logic, pins `6^((L-1)/4) mod L` to a known
//! constant whose square is `-1 (mod L)`.  This certifies that six is a
//! quadratic non-residue and that its quarter-order power generates the
//! two-part of the multiplicative group, which the square-root engine's
//! progress argument rests on.

use crate::model::{field_order, quarter_order, sqrt_minus_one_value};
use vstd::arithmetic::div_mod::{lemma_mul_mod_noop_general, lemma_small_mod};
use vstd::arithmetic::power::{lemma_pow1, lemma_pow_adds, pow};
use vstd::prelude::*;

verus! {

/// One doubling step: squaring the running residue doubles the exponent.
proof fn lemma_six_sq_step(e: nat, r: int)
    requires
        r == pow(6, e) % (field_order() as int),
    ensures
        (r * r) % (field_order() as int) == pow(6, 2 * e) % (field_order() as int),
{
    lemma_pow_adds(6, e, e);
    lemma_mul_mod_noop_general(pow(6, e), pow(6, e), field_order() as int);
}

/// One doubling-and-multiply step: squaring and multiplying by six takes
/// the exponent to twice plus one.
proof fn lemma_six_sq_mul_step(e: nat, r: int)
    requires
        r == pow(6, e) % (field_order() as int),
    ensures
        ((((r * r) % (field_order() as int)) * 6) % (field_order() as int)) == pow(6, 2 * e + 1) % (
        field_order() as int),
{
    let ll = field_order() as int;
    lemma_six_sq_step(e, r);
    lemma_pow_adds(6, 2 * e, 1);
    lemma_pow1(6);
    lemma_mul_mod_noop_general(pow(6, 2 * e), 6, ll);
}

/// Steps 1 through 25 of the chain.
#[verifier::rlimit(100)]
proof fn lemma_six_chain_0()
    ensures
        pow(6, 33554432) % (field_order() as int) == 6258031393076260506794980229248221566088123200163646246060650437605458410117int,
{
    let ll = field_order() as int;
    lemma_pow1(6);
    lemma_small_mod(6nat, field_order());
    assert(pow(6, 1) % ll == 6);
    lemma_six_sq_step(1nat, 6int);
    assert((6int * 6int) % ll == 36int);
    lemma_six_sq_step(2nat, 36int);
    assert((36int * 36int) % ll == 1296int);
    lemma_six_sq_step(4nat, 1296int);
    assert((1296int * 1296int) % ll == 1679616int);
    lemma_six_sq_step(8nat, 1679616int);
    assert((1679616int * 1679616int) % ll == 2821109907456int);
    lemma_six_sq_step(16nat, 2821109907456int);
    assert((2821109907456int * 2821109907456int) % ll == 7958661109946400884391936int);
    lemma_six_sq_step(32nat, 7958661109946400884391936int);
    assert((7958661109946400884391936int * 7958661109946400884391936int) % ll == 63340286662973277706162286946811886609896461828096int);
    lemma_six_sq_step(64nat, 63340286662973277706162286946811886609896461828096int);
    assert((63340286662973277706162286946811886609896461828096int * 63340286662973277706162286946811886609896461828096int) % ll == 1965724255278875651975097013739411890941548058003363469160794619804589188314int);
    lemma_six_sq_step(128nat, 1965724255278875651975097013739411890941548058003363469160794619804589188314int);
    assert((1965724255278875651975097013739411890941548058003363469160794619804589188314int * 1965724255278875651975097013739411890941548058003363469160794619804589188314int) % ll == 3360455146494463872911149287347947025977891376823070706551666863604645578150int);
    lemma_six_sq_step(256nat, 3360455146494463872911149287347947025977891376823070706551666863604645578150int);
    assert((3360455146494463872911149287347947025977891376823070706551666863604645578150int * 3360455146494463872911149287347947025977891376823070706551666863604645578150int) % ll == 3225007892498222837083150900607014184056254689774372716754938471453342644790int);
    lemma_six_sq_step(512nat, 3225007892498222837083150900607014184056254689774372716754938471453342644790int);
    assert((3225007892498222837083150900607014184056254689774372716754938471453342644790int * 3225007892498222837083150900607014184056254689774372716754938471453342644790int) % ll == 490410094319801278313560573289815548927008193741764651754149312648333781806int);
    lemma_six_sq_step(1024nat, 490410094319801278313560573289815548927008193741764651754149312648333781806int);
    assert((490410094319801278313560573289815548927008193741764651754149312648333781806int * 490410094319801278313560573289815548927008193741764651754149312648333781806int) % ll == 5257415107825539672728691910533152252049607481840489624786407329882422185324int);
    lemma_six_sq_step(2048nat, 5257415107825539672728691910533152252049607481840489624786407329882422185324int);
    assert((5257415107825539672728691910533152252049607481840489624786407329882422185324int * 5257415107825539672728691910533152252049607481840489624786407329882422185324int) % ll == 1988320249798724212220330718482303816248836679357745002941051318269291030243int);
    lemma_six_sq_step(4096nat, 1988320249798724212220330718482303816248836679357745002941051318269291030243int);
    assert((1988320249798724212220330718482303816248836679357745002941051318269291030243int * 1988320249798724212220330718482303816248836679357745002941051318269291030243int) % ll == 456966838300731710444082827969265752294372680977703810733571519597371917242int);
    lemma_six_sq_step(8192nat, 456966838300731710444082827969265752294372680977703810733571519597371917242int);
    assert((456966838300731710444082827969265752294372680977703810733571519597371917242int * 456966838300731710444082827969265752294372680977703810733571519597371917242int) % ll == 301115596299048380857720490633737440498208762482255067492942963839804933764int);
    lemma_six_sq_step(16384nat, 301115596299048380857720490633737440498208762482255067492942963839804933764int);
    assert((301115596299048380857720490633737440498208762482255067492942963839804933764int * 301115596299048380857720490633737440498208762482255067492942963839804933764int) % ll == 3146513629653034053111188158758048869981006521314467436572374832946295938490int);
    lemma_six_sq_step(32768nat, 3146513629653034053111188158758048869981006521314467436572374832946295938490int);
    assert((3146513629653034053111188158758048869981006521314467436572374832946295938490int * 3146513629653034053111188158758048869981006521314467436572374832946295938490int) % ll == 285879906621621731944957761288892423248900983685037018723112951191380604479int);
    lemma_six_sq_step(65536nat, 285879906621621731944957761288892423248900983685037018723112951191380604479int);
    assert((285879906621621731944957761288892423248900983685037018723112951191380604479int * 285879906621621731944957761288892423248900983685037018723112951191380604479int) % ll == 752530761489375493941736948291115203478318232707051539646018796498625687484int);
    lemma_six_sq_step(131072nat, 752530761489375493941736948291115203478318232707051539646018796498625687484int);
    assert((752530761489375493941736948291115203478318232707051539646018796498625687484int * 752530761489375493941736948291115203478318232707051539646018796498625687484int) % ll == 5408676060306301681483239623213727214214865907232843856293970600310835422015int);
    lemma_six_sq_step(262144nat, 5408676060306301681483239623213727214214865907232843856293970600310835422015int);
    assert((5408676060306301681483239623213727214214865907232843856293970600310835422015int * 5408676060306301681483239623213727214214865907232843856293970600310835422015int) % ll == 5689744294376411751856205935308880234005750693043159325349135221849171064868int);
    lemma_six_sq_step(524288nat, 5689744294376411751856205935308880234005750693043159325349135221849171064868int);
    assert((5689744294376411751856205935308880234005750693043159325349135221849171064868int * 5689744294376411751856205935308880234005750693043159325349135221849171064868int) % ll == 5186679785035610448518133501062271115909306033820751666885693598093166302280int);
    lemma_six_sq_step(1048576nat, 5186679785035610448518133501062271115909306033820751666885693598093166302280int);
    assert((5186679785035610448518133501062271115909306033820751666885693598093166302280int * 5186679785035610448518133501062271115909306033820751666885693598093166302280int) % ll == 824210964648473266946429754720582200711945017648535382998820325568304189938int);
    lemma_six_sq_step(2097152nat, 824210964648473266946429754720582200711945017648535382998820325568304189938int);
    assert((824210964648473266946429754720582200711945017648535382998820325568304189938int * 824210964648473266946429754720582200711945017648535382998820325568304189938int) % ll == 139918865507526639336207588003762186716805235897763195439644609924788587303int);
    lemma_six_sq_step(4194304nat, 139918865507526639336207588003762186716805235897763195439644609924788587303int);
    assert((139918865507526639336207588003762186716805235897763195439644609924788587303int * 139918865507526639336207588003762186716805235897763195439644609924788587303int) % ll == 7112270022192945503290369262901521034165342055516412581380347404712153283853int);
    lemma_six_sq_step(8388608nat, 7112270022192945503290369262901521034165342055516412581380347404712153283853int);
    assert((7112270022192945503290369262901521034165342055516412581380347404712153283853int * 7112270022192945503290369262901521034165342055516412581380347404712153283853int) % ll == 3625032329777934552122618799382082423179940559808035788977103902745587185470int);
    lemma_six_sq_step(16777216nat, 3625032329777934552122618799382082423179940559808035788977103902745587185470int);
    assert((3625032329777934552122618799382082423179940559808035788977103902745587185470int * 3625032329777934552122618799382082423179940559808035788977103902745587185470int) % ll == 6258031393076260506794980229248221566088123200163646246060650437605458410117int);
}

/// Steps 26 through 50 of the chain.
#[verifier::rlimit(100)]
proof fn lemma_six_chain_1()
    ensures
        pow(6, 1125899906842624) % (field_order() as int) == 6571809850567639141132380093616868402076256356129734304868846855142382549012int,
{
    let ll = field_order() as int;
    lemma_six_chain_0();
    lemma_six_sq_step(33554432nat, 6258031393076260506794980229248221566088123200163646246060650437605458410117int);
    assert((6258031393076260506794980229248221566088123200163646246060650437605458410117int * 6258031393076260506794980229248221566088123200163646246060650437605458410117int) % ll == 3619334261840832561809178898163358952948189042711700456766544872116533976140int);
    lemma_six_sq_step(67108864nat, 3619334261840832561809178898163358952948189042711700456766544872116533976140int);
    assert((3619334261840832561809178898163358952948189042711700456766544872116533976140int * 3619334261840832561809178898163358952948189042711700456766544872116533976140int) % ll == 5170302671629842756516301212466107562522679068623071085685393639140228930476int);
    lemma_six_sq_step(134217728nat, 5170302671629842756516301212466107562522679068623071085685393639140228930476int);
    assert((5170302671629842756516301212466107562522679068623071085685393639140228930476int * 5170302671629842756516301212466107562522679068623071085685393639140228930476int) % ll == 6740251884404147809323478802316256672705349988089142394375112824838262055195int);
    lemma_six_sq_step(268435456nat, 6740251884404147809323478802316256672705349988089142394375112824838262055195int);
    assert((6740251884404147809323478802316256672705349988089142394375112824838262055195int * 6740251884404147809323478802316256672705349988089142394375112824838262055195int) % ll == 802321817575909596678527728493502505249856384240904609199723397782273182219int);
    lemma_six_sq_step(536870912nat, 802321817575909596678527728493502505249856384240904609199723397782273182219int);
    assert((802321817575909596678527728493502505249856384240904609199723397782273182219int * 802321817575909596678527728493502505249856384240904609199723397782273182219int) % ll == 7208048649355134224534953660868255299744180518272177336978679394537767343186int);
    lemma_six_sq_step(1073741824nat, 7208048649355134224534953660868255299744180518272177336978679394537767343186int);
    assert((7208048649355134224534953660868255299744180518272177336978679394537767343186int * 7208048649355134224534953660868255299744180518272177336978679394537767343186int) % ll == 5475832449116239577853730730882050346508581884099328520382906176038990584631int);
    lemma_six_sq_step(2147483648nat, 5475832449116239577853730730882050346508581884099328520382906176038990584631int);
    assert((5475832449116239577853730730882050346508581884099328520382906176038990584631int * 5475832449116239577853730730882050346508581884099328520382906176038990584631int) % ll == 6614693164685497978564519564937447828982190362498874070424809439984698376604int);
    lemma_six_sq_step(4294967296nat, 6614693164685497978564519564937447828982190362498874070424809439984698376604int);
    assert((6614693164685497978564519564937447828982190362498874070424809439984698376604int * 6614693164685497978564519564937447828982190362498874070424809439984698376604int) % ll == 7029382225638184917704697945977119466962124685983579478861412493785985205023int);
    lemma_six_sq_step(8589934592nat, 7029382225638184917704697945977119466962124685983579478861412493785985205023int);
    assert((7029382225638184917704697945977119466962124685983579478861412493785985205023int * 7029382225638184917704697945977119466962124685983579478861412493785985205023int) % ll == 3050791077352047131684404711481331950933916250919569174448915602672546841178int);
    lemma_six_sq_step(17179869184nat, 3050791077352047131684404711481331950933916250919569174448915602672546841178int);
    assert((3050791077352047131684404711481331950933916250919569174448915602672546841178int * 3050791077352047131684404711481331950933916250919569174448915602672546841178int) % ll == 1061033690055323929392927199538216095555226290139748361182063839815880013738int);
    lemma_six_sq_step(34359738368nat, 1061033690055323929392927199538216095555226290139748361182063839815880013738int);
    assert((1061033690055323929392927199538216095555226290139748361182063839815880013738int * 1061033690055323929392927199538216095555226290139748361182063839815880013738int) % ll == 672843917837124078618115280203591549416727021960311627070368100051086326930int);
    lemma_six_sq_step(68719476736nat, 672843917837124078618115280203591549416727021960311627070368100051086326930int);
    assert((672843917837124078618115280203591549416727021960311627070368100051086326930int * 672843917837124078618115280203591549416727021960311627070368100051086326930int) % ll == 3280351141965305219127347259742718008409099493873646390841769741596203698657int);
    lemma_six_sq_step(137438953472nat, 3280351141965305219127347259742718008409099493873646390841769741596203698657int);
    assert((3280351141965305219127347259742718008409099493873646390841769741596203698657int * 3280351141965305219127347259742718008409099493873646390841769741596203698657int) % ll == 5104655300695468619793189795115437044986563364409067733555118414564326132508int);
    lemma_six_sq_step(274877906944nat, 5104655300695468619793189795115437044986563364409067733555118414564326132508int);
    assert((5104655300695468619793189795115437044986563364409067733555118414564326132508int * 5104655300695468619793189795115437044986563364409067733555118414564326132508int) % ll == 1063094772864788257738946667944697158901810661384298234635401478350576869061int);
    lemma_six_sq_step(549755813888nat, 1063094772864788257738946667944697158901810661384298234635401478350576869061int);
    assert((1063094772864788257738946667944697158901810661384298234635401478350576869061int * 1063094772864788257738946667944697158901810661384298234635401478350576869061int) % ll == 4094415099495877940954974678844593589252001817303267186179663562582506870680int);
    lemma_six_sq_step(1099511627776nat, 4094415099495877940954974678844593589252001817303267186179663562582506870680int);
    assert((4094415099495877940954974678844593589252001817303267186179663562582506870680int * 4094415099495877940954974678844593589252001817303267186179663562582506870680int) % ll == 6386479246236353073478992039439506614372782017773162933149436756089091729929int);
    lemma_six_sq_step(2199023255552nat, 6386479246236353073478992039439506614372782017773162933149436756089091729929int);
    assert((6386479246236353073478992039439506614372782017773162933149436756089091729929int * 6386479246236353073478992039439506614372782017773162933149436756089091729929int) % ll == 3557930108783048646306482088051269117179212455766713598325930773051776771651int);
    lemma_six_sq_step(4398046511104nat, 3557930108783048646306482088051269117179212455766713598325930773051776771651int);
    assert((3557930108783048646306482088051269117179212455766713598325930773051776771651int * 3557930108783048646306482088051269117179212455766713598325930773051776771651int) % ll == 3415573583137849921761907692690214513038665332763977809398517540843808123822int);
    lemma_six_sq_step(8796093022208nat, 3415573583137849921761907692690214513038665332763977809398517540843808123822int);
    assert((3415573583137849921761907692690214513038665332763977809398517540843808123822int * 3415573583137849921761907692690214513038665332763977809398517540843808123822int) % ll == 1354747982871494314693229836360024885376905952145510001801517721272327946436int);
    lemma_six_sq_step(17592186044416nat, 1354747982871494314693229836360024885376905952145510001801517721272327946436int);
    assert((1354747982871494314693229836360024885376905952145510001801517721272327946436int * 1354747982871494314693229836360024885376905952145510001801517721272327946436int) % ll == 1686537796571640008268178488573325101191301973438346727926315459815749205148int);
    lemma_six_sq_step(35184372088832nat, 1686537796571640008268178488573325101191301973438346727926315459815749205148int);
    assert((1686537796571640008268178488573325101191301973438346727926315459815749205148int * 1686537796571640008268178488573325101191301973438346727926315459815749205148int) % ll == 5805291708797138758948459410731044866911794488430696738031126158902837345810int);
    lemma_six_sq_step(70368744177664nat, 5805291708797138758948459410731044866911794488430696738031126158902837345810int);
    assert((5805291708797138758948459410731044866911794488430696738031126158902837345810int * 5805291708797138758948459410731044866911794488430696738031126158902837345810int) % ll == 1933481932789661224191199984301840731784545264568996209430783716200656643932int);
    lemma_six_sq_step(140737488355328nat, 1933481932789661224191199984301840731784545264568996209430783716200656643932int);
    assert((1933481932789661224191199984301840731784545264568996209430783716200656643932int * 1933481932789661224191199984301840731784545264568996209430783716200656643932int) % ll == 4306235384064439647752228753162772703619220933618675149183915765386936566665int);
    lemma_six_sq_step(281474976710656nat, 4306235384064439647752228753162772703619220933618675149183915765386936566665int);
    assert((4306235384064439647752228753162772703619220933618675149183915765386936566665int * 4306235384064439647752228753162772703619220933618675149183915765386936566665int) % ll == 7187572173693796475270874724021719053173224486557575528734344615031148991808int);
    lemma_six_sq_step(562949953421312nat, 7187572173693796475270874724021719053173224486557575528734344615031148991808int);
    assert((7187572173693796475270874724021719053173224486557575528734344615031148991808int * 7187572173693796475270874724021719053173224486557575528734344615031148991808int) % ll == 6571809850567639141132380093616868402076256356129734304868846855142382549012int);
}

/// Steps 51 through 75 of the chain.
#[verifier::rlimit(100)]
proof fn lemma_six_chain_2()
    ensures
        pow(6, 37778931862957161709568) % (field_order() as int) == 23948849788007397223360288088061505330843229875101941111493909812169331481int,
{
    let ll = field_order() as int;
    lemma_six_chain_1();
    lemma_six_sq_step(1125899906842624nat, 6571809850567639141132380093616868402076256356129734304868846855142382549012int);
    assert((6571809850567639141132380093616868402076256356129734304868846855142382549012int * 6571809850567639141132380093616868402076256356129734304868846855142382549012int) % ll == 4290028285155525992736377483351607766036893836870733757752663434574241254063int);
    lemma_six_sq_step(2251799813685248nat, 4290028285155525992736377483351607766036893836870733757752663434574241254063int);
    assert((4290028285155525992736377483351607766036893836870733757752663434574241254063int * 4290028285155525992736377483351607766036893836870733757752663434574241254063int) % ll == 2074797740503696216085130132030316106908524418840347143433867464905103622106int);
    lemma_six_sq_step(4503599627370496nat, 2074797740503696216085130132030316106908524418840347143433867464905103622106int);
    assert((2074797740503696216085130132030316106908524418840347143433867464905103622106int * 2074797740503696216085130132030316106908524418840347143433867464905103622106int) % ll == 4137978200284169651351995893016747555859510431063418147585770971643389920668int);
    lemma_six_sq_step(9007199254740992nat, 4137978200284169651351995893016747555859510431063418147585770971643389920668int);
    assert((4137978200284169651351995893016747555859510431063418147585770971643389920668int * 4137978200284169651351995893016747555859510431063418147585770971643389920668int) % ll == 2896396628248636662034472876571589758386079874191008202136059605147338083149int);
    lemma_six_sq_step(18014398509481984nat, 2896396628248636662034472876571589758386079874191008202136059605147338083149int);
    assert((2896396628248636662034472876571589758386079874191008202136059605147338083149int * 2896396628248636662034472876571589758386079874191008202136059605147338083149int) % ll == 971408923008894442519886070859092664037406992862352806399329292599291061646int);
    lemma_six_sq_step(36028797018963968nat, 971408923008894442519886070859092664037406992862352806399329292599291061646int);
    assert((971408923008894442519886070859092664037406992862352806399329292599291061646int * 971408923008894442519886070859092664037406992862352806399329292599291061646int) % ll == 5896467070852427512450265213209694187071411281933781514199260673382738144848int);
    lemma_six_sq_step(72057594037927936nat, 5896467070852427512450265213209694187071411281933781514199260673382738144848int);
    assert((5896467070852427512450265213209694187071411281933781514199260673382738144848int * 5896467070852427512450265213209694187071411281933781514199260673382738144848int) % ll == 6732347210692448795934233841806663144174519199105963225169738706098659447034int);
    lemma_six_sq_step(144115188075855872nat, 6732347210692448795934233841806663144174519199105963225169738706098659447034int);
    assert((6732347210692448795934233841806663144174519199105963225169738706098659447034int * 6732347210692448795934233841806663144174519199105963225169738706098659447034int) % ll == 5332164999455791309634332819826164477677683773261935179580591849524129424122int);
    lemma_six_sq_step(288230376151711744nat, 5332164999455791309634332819826164477677683773261935179580591849524129424122int);
    assert((5332164999455791309634332819826164477677683773261935179580591849524129424122int * 5332164999455791309634332819826164477677683773261935179580591849524129424122int) % ll == 5643102355105502140281909458920601754562321854880859321137542561187109112020int);
    lemma_six_sq_step(576460752303423488nat, 5643102355105502140281909458920601754562321854880859321137542561187109112020int);
    assert((5643102355105502140281909458920601754562321854880859321137542561187109112020int * 5643102355105502140281909458920601754562321854880859321137542561187109112020int) % ll == 6547964506744339051116754516343060992836675257475604762538802219409314053080int);
    lemma_six_sq_step(1152921504606846976nat, 6547964506744339051116754516343060992836675257475604762538802219409314053080int);
    assert((6547964506744339051116754516343060992836675257475604762538802219409314053080int * 6547964506744339051116754516343060992836675257475604762538802219409314053080int) % ll == 678263556724862184171693934660385249323021572074686881844961856761273242443int);
    lemma_six_sq_step(2305843009213693952nat, 678263556724862184171693934660385249323021572074686881844961856761273242443int);
    assert((678263556724862184171693934660385249323021572074686881844961856761273242443int * 678263556724862184171693934660385249323021572074686881844961856761273242443int) % ll == 5199009832784761892740657275377312200078853043763381884965010914591401672763int);
    lemma_six_sq_step(4611686018427387904nat, 5199009832784761892740657275377312200078853043763381884965010914591401672763int);
    assert((5199009832784761892740657275377312200078853043763381884965010914591401672763int * 5199009832784761892740657275377312200078853043763381884965010914591401672763int) % ll == 6188957002759558677037447882931447595309496541214068713694456557619299164263int);
    lemma_six_sq_step(9223372036854775808nat, 6188957002759558677037447882931447595309496541214068713694456557619299164263int);
    assert((6188957002759558677037447882931447595309496541214068713694456557619299164263int * 6188957002759558677037447882931447595309496541214068713694456557619299164263int) % ll == 5985376462641915715301517431221516067091953582750758611368794916759435057082int);
    lemma_six_sq_step(18446744073709551616nat, 5985376462641915715301517431221516067091953582750758611368794916759435057082int);
    assert((5985376462641915715301517431221516067091953582750758611368794916759435057082int * 5985376462641915715301517431221516067091953582750758611368794916759435057082int) % ll == 558297902309441631949676349800015261263634647605374683838304891297855470349int);
    lemma_six_sq_step(36893488147419103232nat, 558297902309441631949676349800015261263634647605374683838304891297855470349int);
    assert((558297902309441631949676349800015261263634647605374683838304891297855470349int * 558297902309441631949676349800015261263634647605374683838304891297855470349int) % ll == 6794178297976751954899887332195023033948533688968040297304259612134063070530int);
    lemma_six_sq_step(73786976294838206464nat, 6794178297976751954899887332195023033948533688968040297304259612134063070530int);
    assert((6794178297976751954899887332195023033948533688968040297304259612134063070530int * 6794178297976751954899887332195023033948533688968040297304259612134063070530int) % ll == 1890449082943586918054032129358151108343020554848563878651551446945908662598int);
    lemma_six_sq_step(147573952589676412928nat, 1890449082943586918054032129358151108343020554848563878651551446945908662598int);
    assert((1890449082943586918054032129358151108343020554848563878651551446945908662598int * 1890449082943586918054032129358151108343020554848563878651551446945908662598int) % ll == 4956817187235514677398403133688053458288359567884729510584593990970934316467int);
    lemma_six_sq_step(295147905179352825856nat, 4956817187235514677398403133688053458288359567884729510584593990970934316467int);
    assert((4956817187235514677398403133688053458288359567884729510584593990970934316467int * 4956817187235514677398403133688053458288359567884729510584593990970934316467int) % ll == 1598747483523608454343055978487359767616623328106914382140974088140102832357int);
    lemma_six_sq_step(590295810358705651712nat, 1598747483523608454343055978487359767616623328106914382140974088140102832357int);
    assert((1598747483523608454343055978487359767616623328106914382140974088140102832357int * 1598747483523608454343055978487359767616623328106914382140974088140102832357int) % ll == 612015630185576983740239624271495338762604303485696183190863026695353678757int);
    lemma_six_sq_step(1180591620717411303424nat, 612015630185576983740239624271495338762604303485696183190863026695353678757int);
    assert((612015630185576983740239624271495338762604303485696183190863026695353678757int * 612015630185576983740239624271495338762604303485696183190863026695353678757int) % ll == 3547906386896415786277486478673479695493311928983662941133594338026767053022int);
    lemma_six_sq_step(2361183241434822606848nat, 3547906386896415786277486478673479695493311928983662941133594338026767053022int);
    assert((3547906386896415786277486478673479695493311928983662941133594338026767053022int * 3547906386896415786277486478673479695493311928983662941133594338026767053022int) % ll == 5271543333404937371013577594600200357512248136883559611052478813283785477987int);
    lemma_six_sq_step(4722366482869645213696nat, 5271543333404937371013577594600200357512248136883559611052478813283785477987int);
    assert((5271543333404937371013577594600200357512248136883559611052478813283785477987int * 5271543333404937371013577594600200357512248136883559611052478813283785477987int) % ll == 1701349161101405350247263627073595466270296374843654238447188109845957086852int);
    lemma_six_sq_step(9444732965739290427392nat, 1701349161101405350247263627073595466270296374843654238447188109845957086852int);
    assert((1701349161101405350247263627073595466270296374843654238447188109845957086852int * 1701349161101405350247263627073595466270296374843654238447188109845957086852int) % ll == 5001791644538648130904895083832694260800175036148700761628189397874774518994int);
    lemma_six_sq_step(18889465931478580854784nat, 5001791644538648130904895083832694260800175036148700761628189397874774518994int);
    assert((5001791644538648130904895083832694260800175036148700761628189397874774518994int * 5001791644538648130904895083832694260800175036148700761628189397874774518994int) % ll == 23948849788007397223360288088061505330843229875101941111493909812169331481int);
}

/// Steps 76 through 100 of the chain.
#[verifier::rlimit(100)]
proof fn lemma_six_chain_3()
    ensures
        pow(6, 1267650600228229401496703205376) % (field_order() as int) == 2315577838180515829901733053685963642433141400874154103441801756643450806123int,
{
    let ll = field_order() as int;
    lemma_six_chain_2();
    lemma_six_sq_step(37778931862957161709568nat, 23948849788007397223360288088061505330843229875101941111493909812169331481int);
    assert((23948849788007397223360288088061505330843229875101941111493909812169331481int * 23948849788007397223360288088061505330843229875101941111493909812169331481int) % ll == 3569944122923645050258659382185618985050813877583943906361788250806323366300int);
    lemma_six_sq_step(75557863725914323419136nat, 3569944122923645050258659382185618985050813877583943906361788250806323366300int);
    assert((3569944122923645050258659382185618985050813877583943906361788250806323366300int * 3569944122923645050258659382185618985050813877583943906361788250806323366300int) % ll == 2574788973135922313385022122100101208207387332281661607430275191625280698830int);
    lemma_six_sq_step(151115727451828646838272nat, 2574788973135922313385022122100101208207387332281661607430275191625280698830int);
    assert((2574788973135922313385022122100101208207387332281661607430275191625280698830int * 2574788973135922313385022122100101208207387332281661607430275191625280698830int) % ll == 1491160513619151892361833371257711177109715117730457559349966711482660943604int);
    lemma_six_sq_step(302231454903657293676544nat, 1491160513619151892361833371257711177109715117730457559349966711482660943604int);
    assert((1491160513619151892361833371257711177109715117730457559349966711482660943604int * 1491160513619151892361833371257711177109715117730457559349966711482660943604int) % ll == 6527676924209085316736904017850159309607001321629816274532968050378526634326int);
    lemma_six_sq_step(604462909807314587353088nat, 6527676924209085316736904017850159309607001321629816274532968050378526634326int);
    assert((6527676924209085316736904017850159309607001321629816274532968050378526634326int * 6527676924209085316736904017850159309607001321629816274532968050378526634326int) % ll == 4295850321290097188922068005699244586779057432848131362545077918472279114988int);
    lemma_six_sq_step(1208925819614629174706176nat, 4295850321290097188922068005699244586779057432848131362545077918472279114988int);
    assert((4295850321290097188922068005699244586779057432848131362545077918472279114988int * 4295850321290097188922068005699244586779057432848131362545077918472279114988int) % ll == 141302861289780159397228354220698179058058371830155819134457642695654310869int);
    lemma_six_sq_step(2417851639229258349412352nat, 141302861289780159397228354220698179058058371830155819134457642695654310869int);
    assert((141302861289780159397228354220698179058058371830155819134457642695654310869int * 141302861289780159397228354220698179058058371830155819134457642695654310869int) % ll == 3094376317878959412868147101394263156456739545045832240093852486553909519173int);
    lemma_six_sq_step(4835703278458516698824704nat, 3094376317878959412868147101394263156456739545045832240093852486553909519173int);
    assert((3094376317878959412868147101394263156456739545045832240093852486553909519173int * 3094376317878959412868147101394263156456739545045832240093852486553909519173int) % ll == 2497197255673728801167850545139303398406297079771399305516132115601283582987int);
    lemma_six_sq_step(9671406556917033397649408nat, 2497197255673728801167850545139303398406297079771399305516132115601283582987int);
    assert((2497197255673728801167850545139303398406297079771399305516132115601283582987int * 2497197255673728801167850545139303398406297079771399305516132115601283582987int) % ll == 3704745234950397122607825809811321831900501955229208437458173579487221927028int);
    lemma_six_sq_step(19342813113834066795298816nat, 3704745234950397122607825809811321831900501955229208437458173579487221927028int);
    assert((3704745234950397122607825809811321831900501955229208437458173579487221927028int * 3704745234950397122607825809811321831900501955229208437458173579487221927028int) % ll == 322277515131726228539390060197885398547691254105401177025909376282186502543int);
    lemma_six_sq_step(38685626227668133590597632nat, 322277515131726228539390060197885398547691254105401177025909376282186502543int);
    assert((322277515131726228539390060197885398547691254105401177025909376282186502543int * 322277515131726228539390060197885398547691254105401177025909376282186502543int) % ll == 4664674363519281455418787144029702254836321526090222908601871797779733696339int);
    lemma_six_sq_step(77371252455336267181195264nat, 4664674363519281455418787144029702254836321526090222908601871797779733696339int);
    assert((4664674363519281455418787144029702254836321526090222908601871797779733696339int * 4664674363519281455418787144029702254836321526090222908601871797779733696339int) % ll == 4500651937812900368317076148787293497002575406971816103702638156114940017558int);
    lemma_six_sq_step(154742504910672534362390528nat, 4500651937812900368317076148787293497002575406971816103702638156114940017558int);
    assert((4500651937812900368317076148787293497002575406971816103702638156114940017558int * 4500651937812900368317076148787293497002575406971816103702638156114940017558int) % ll == 2899359600567322959237368769256602923489249884361853319787724782920320315714int);
    lemma_six_sq_step(309485009821345068724781056nat, 2899359600567322959237368769256602923489249884361853319787724782920320315714int);
    assert((2899359600567322959237368769256602923489249884361853319787724782920320315714int * 2899359600567322959237368769256602923489249884361853319787724782920320315714int) % ll == 6245074004529309031015561870622365752835950986962490122876460093338231445491int);
    lemma_six_sq_step(618970019642690137449562112nat, 6245074004529309031015561870622365752835950986962490122876460093338231445491int);
    assert((6245074004529309031015561870622365752835950986962490122876460093338231445491int * 6245074004529309031015561870622365752835950986962490122876460093338231445491int) % ll == 2978539937948008008992066180633957433295075828381475887527167160201972860261int);
    lemma_six_sq_step(1237940039285380274899124224nat, 2978539937948008008992066180633957433295075828381475887527167160201972860261int);
    assert((2978539937948008008992066180633957433295075828381475887527167160201972860261int * 2978539937948008008992066180633957433295075828381475887527167160201972860261int) % ll == 2444477733207024592877488842526241194246678727567406127700811454229068576578int);
    lemma_six_sq_step(2475880078570760549798248448nat, 2444477733207024592877488842526241194246678727567406127700811454229068576578int);
    assert((2444477733207024592877488842526241194246678727567406127700811454229068576578int * 2444477733207024592877488842526241194246678727567406127700811454229068576578int) % ll == 4454069954477813490748804995788720676957816388540583065567388471871383972594int);
    lemma_six_sq_step(4951760157141521099596496896nat, 4454069954477813490748804995788720676957816388540583065567388471871383972594int);
    assert((4454069954477813490748804995788720676957816388540583065567388471871383972594int * 4454069954477813490748804995788720676957816388540583065567388471871383972594int) % ll == 2391544617600051165107877551073853640923291284345595611005087725744457406108int);
    lemma_six_sq_step(9903520314283042199192993792nat, 2391544617600051165107877551073853640923291284345595611005087725744457406108int);
    assert((2391544617600051165107877551073853640923291284345595611005087725744457406108int * 2391544617600051165107877551073853640923291284345595611005087725744457406108int) % ll == 5212830850185006559007806104311984908261706173999233373246988320982137592116int);
    lemma_six_sq_step(19807040628566084398385987584nat, 5212830850185006559007806104311984908261706173999233373246988320982137592116int);
    assert((5212830850185006559007806104311984908261706173999233373246988320982137592116int * 5212830850185006559007806104311984908261706173999233373246988320982137592116int) % ll == 6474928801177045698437068340898926720695786835916370190788577350235893986402int);
    lemma_six_sq_step(39614081257132168796771975168nat, 6474928801177045698437068340898926720695786835916370190788577350235893986402int);
    assert((6474928801177045698437068340898926720695786835916370190788577350235893986402int * 6474928801177045698437068340898926720695786835916370190788577350235893986402int) % ll == 6590593293345997467363675398241426165582640786013682468704612216288979680855int);
    lemma_six_sq_step(79228162514264337593543950336nat, 6590593293345997467363675398241426165582640786013682468704612216288979680855int);
    assert((6590593293345997467363675398241426165582640786013682468704612216288979680855int * 6590593293345997467363675398241426165582640786013682468704612216288979680855int) % ll == 2805900989143633590711652827656699780016952813235650874719370859200612165385int);
    lemma_six_sq_step(158456325028528675187087900672nat, 2805900989143633590711652827656699780016952813235650874719370859200612165385int);
    assert((2805900989143633590711652827656699780016952813235650874719370859200612165385int * 2805900989143633590711652827656699780016952813235650874719370859200612165385int) % ll == 2039753561851675671886341144842025037708673925800317567062563291447204222394int);
    lemma_six_sq_step(316912650057057350374175801344nat, 2039753561851675671886341144842025037708673925800317567062563291447204222394int);
    assert((2039753561851675671886341144842025037708673925800317567062563291447204222394int * 2039753561851675671886341144842025037708673925800317567062563291447204222394int) % ll == 6367838780762940432544365941751083995985364201667573951959295401974314816973int);
    lemma_six_sq_step(633825300114114700748351602688nat, 6367838780762940432544365941751083995985364201667573951959295401974314816973int);
    assert((6367838780762940432544365941751083995985364201667573951959295401974314816973int * 6367838780762940432544365941751083995985364201667573951959295401974314816973int) % ll == 2315577838180515829901733053685963642433141400874154103441801756643450806123int);
}

/// Steps 101 through 125 of the chain.
#[verifier::rlimit(100)]
proof fn lemma_six_chain_4()
    ensures
        pow(6, 42535295865117307932921825928971026432) % (field_order() as int) == 2999928367162768599115384910104728954564717204962764918210989387649698448273int,
{
    let ll = field_order() as int;
    lemma_six_chain_3();
    lemma_six_sq_step(1267650600228229401496703205376nat, 2315577838180515829901733053685963642433141400874154103441801756643450806123int);
    assert((2315577838180515829901733053685963642433141400874154103441801756643450806123int * 2315577838180515829901733053685963642433141400874154103441801756643450806123int) % ll == 2810451481099087387701100976026464791656087629731055130772487944152905659783int);
    lemma_six_sq_step(2535301200456458802993406410752nat, 2810451481099087387701100976026464791656087629731055130772487944152905659783int);
    assert((2810451481099087387701100976026464791656087629731055130772487944152905659783int * 2810451481099087387701100976026464791656087629731055130772487944152905659783int) % ll == 1658258025904220593756532184795053450069772868129912868716785729305153060655int);
    lemma_six_sq_step(5070602400912917605986812821504nat, 1658258025904220593756532184795053450069772868129912868716785729305153060655int);
    assert((1658258025904220593756532184795053450069772868129912868716785729305153060655int * 1658258025904220593756532184795053450069772868129912868716785729305153060655int) % ll == 19250717929078484744542814596750370955210107728620644982960048745839728716int);
    lemma_six_sq_step(10141204801825835211973625643008nat, 19250717929078484744542814596750370955210107728620644982960048745839728716int);
    assert((19250717929078484744542814596750370955210107728620644982960048745839728716int * 19250717929078484744542814596750370955210107728620644982960048745839728716int) % ll == 2164292097669605591774643517305128736057443747946081803770278160019799045701int);
    lemma_six_sq_step(20282409603651670423947251286016nat, 2164292097669605591774643517305128736057443747946081803770278160019799045701int);
    assert((2164292097669605591774643517305128736057443747946081803770278160019799045701int * 2164292097669605591774643517305128736057443747946081803770278160019799045701int) % ll == 7086511428919315935104331436140740486823581334720395182364387250528083517663int);
    lemma_six_sq_step(40564819207303340847894502572032nat, 7086511428919315935104331436140740486823581334720395182364387250528083517663int);
    assert((7086511428919315935104331436140740486823581334720395182364387250528083517663int * 7086511428919315935104331436140740486823581334720395182364387250528083517663int) % ll == 243911113259747214884467811198458546073573866077873484713254357773827991003int);
    lemma_six_sq_step(81129638414606681695789005144064nat, 243911113259747214884467811198458546073573866077873484713254357773827991003int);
    assert((243911113259747214884467811198458546073573866077873484713254357773827991003int * 243911113259747214884467811198458546073573866077873484713254357773827991003int) % ll == 1880445846163432484208900799121904572741004200184702985462948831130668539646int);
    lemma_six_sq_step(162259276829213363391578010288128nat, 1880445846163432484208900799121904572741004200184702985462948831130668539646int);
    assert((1880445846163432484208900799121904572741004200184702985462948831130668539646int * 1880445846163432484208900799121904572741004200184702985462948831130668539646int) % ll == 699993753532020405327816520238869870361123634579265058498653476789543198722int);
    lemma_six_sq_step(324518553658426726783156020576256nat, 699993753532020405327816520238869870361123634579265058498653476789543198722int);
    assert((699993753532020405327816520238869870361123634579265058498653476789543198722int * 699993753532020405327816520238869870361123634579265058498653476789543198722int) % ll == 2713923616577680699243457940914869043188538782154447355462957076361854057933int);
    lemma_six_sq_step(649037107316853453566312041152512nat, 2713923616577680699243457940914869043188538782154447355462957076361854057933int);
    assert((2713923616577680699243457940914869043188538782154447355462957076361854057933int * 2713923616577680699243457940914869043188538782154447355462957076361854057933int) % ll == 207979965113930256443793317115036799261616656208557051718194827579955411360int);
    lemma_six_sq_step(1298074214633706907132624082305024nat, 207979965113930256443793317115036799261616656208557051718194827579955411360int);
    assert((207979965113930256443793317115036799261616656208557051718194827579955411360int * 207979965113930256443793317115036799261616656208557051718194827579955411360int) % ll == 4606190780583721144933590502346488574583246720734300699283647430171744584858int);
    lemma_six_sq_step(2596148429267413814265248164610048nat, 4606190780583721144933590502346488574583246720734300699283647430171744584858int);
    assert((4606190780583721144933590502346488574583246720734300699283647430171744584858int * 4606190780583721144933590502346488574583246720734300699283647430171744584858int) % ll == 6148774021317249257650023285670358825324009338023000267906045013623411895930int);
    lemma_six_sq_step(5192296858534827628530496329220096nat, 6148774021317249257650023285670358825324009338023000267906045013623411895930int);
    assert((6148774021317249257650023285670358825324009338023000267906045013623411895930int * 6148774021317249257650023285670358825324009338023000267906045013623411895930int) % ll == 820276333242190048389569766922664858751195944156731313676985020708934775172int);
    lemma_six_sq_step(10384593717069655257060992658440192nat, 820276333242190048389569766922664858751195944156731313676985020708934775172int);
    assert((820276333242190048389569766922664858751195944156731313676985020708934775172int * 820276333242190048389569766922664858751195944156731313676985020708934775172int) % ll == 1515484649708347417681050456561636799085183204027647343989635172785959741467int);
    lemma_six_sq_step(20769187434139310514121985316880384nat, 1515484649708347417681050456561636799085183204027647343989635172785959741467int);
    assert((1515484649708347417681050456561636799085183204027647343989635172785959741467int * 1515484649708347417681050456561636799085183204027647343989635172785959741467int) % ll == 5671859998753451051496845293019549901095712547230206610767031793481648520057int);
    lemma_six_sq_step(41538374868278621028243970633760768nat, 5671859998753451051496845293019549901095712547230206610767031793481648520057int);
    assert((5671859998753451051496845293019549901095712547230206610767031793481648520057int * 5671859998753451051496845293019549901095712547230206610767031793481648520057int) % ll == 4306015479978937609569672424157759733862523331086910944850484016646962943484int);
    lemma_six_sq_step(83076749736557242056487941267521536nat, 4306015479978937609569672424157759733862523331086910944850484016646962943484int);
    assert((4306015479978937609569672424157759733862523331086910944850484016646962943484int * 4306015479978937609569672424157759733862523331086910944850484016646962943484int) % ll == 6229135071580526032329871777087903197354566821616751187232864050176128123397int);
    lemma_six_sq_step(166153499473114484112975882535043072nat, 6229135071580526032329871777087903197354566821616751187232864050176128123397int);
    assert((6229135071580526032329871777087903197354566821616751187232864050176128123397int * 6229135071580526032329871777087903197354566821616751187232864050176128123397int) % ll == 5126513946854450572398852424856535106701094026907961543544742985711984243682int);
    lemma_six_sq_step(332306998946228968225951765070086144nat, 5126513946854450572398852424856535106701094026907961543544742985711984243682int);
    assert((5126513946854450572398852424856535106701094026907961543544742985711984243682int * 5126513946854450572398852424856535106701094026907961543544742985711984243682int) % ll == 4540860041331172154298314601764311516370607193301570084281399316256349999825int);
    lemma_six_sq_step(664613997892457936451903530140172288nat, 4540860041331172154298314601764311516370607193301570084281399316256349999825int);
    assert((4540860041331172154298314601764311516370607193301570084281399316256349999825int * 4540860041331172154298314601764311516370607193301570084281399316256349999825int) % ll == 937921611514247985293669532010546564707297025772536153997367890396967966456int);
    lemma_six_sq_step(1329227995784915872903807060280344576nat, 937921611514247985293669532010546564707297025772536153997367890396967966456int);
    assert((937921611514247985293669532010546564707297025772536153997367890396967966456int * 937921611514247985293669532010546564707297025772536153997367890396967966456int) % ll == 959550563621996589884067825339529640002663985838131021656466201231922943955int);
    lemma_six_sq_step(2658455991569831745807614120560689152nat, 959550563621996589884067825339529640002663985838131021656466201231922943955int);
    assert((959550563621996589884067825339529640002663985838131021656466201231922943955int * 959550563621996589884067825339529640002663985838131021656466201231922943955int) % ll == 5192086606053826785920226338861841446443135964191156623175212268642869325927int);
    lemma_six_sq_step(5316911983139663491615228241121378304nat, 5192086606053826785920226338861841446443135964191156623175212268642869325927int);
    assert((5192086606053826785920226338861841446443135964191156623175212268642869325927int * 5192086606053826785920226338861841446443135964191156623175212268642869325927int) % ll == 1805917916733256408096918271548192070357136325964484221492882559335169030931int);
    lemma_six_sq_step(10633823966279326983230456482242756608nat, 1805917916733256408096918271548192070357136325964484221492882559335169030931int);
    assert((1805917916733256408096918271548192070357136325964484221492882559335169030931int * 1805917916733256408096918271548192070357136325964484221492882559335169030931int) % ll == 5834418910131831458096182142253323210421772474167025324440668513537768588882int);
    lemma_six_sq_step(21267647932558653966460912964485513216nat, 5834418910131831458096182142253323210421772474167025324440668513537768588882int);
    assert((5834418910131831458096182142253323210421772474167025324440668513537768588882int * 5834418910131831458096182142253323210421772474167025324440668513537768588882int) % ll == 2999928367162768599115384910104728954564717204962764918210989387649698448273int);
}

/// Steps 126 through 150 of the chain.
#[verifier::rlimit(100)]
proof fn lemma_six_chain_5()
    ensures
        pow(6, 1427247692705959881058285969449495136388217831nat) % (field_order() as int) == 4616453962123124373483243119149734424213154921150315900483891671684025572352int,
{
    let ll = field_order() as int;
    lemma_six_chain_4();
    lemma_six_sq_step(42535295865117307932921825928971026432nat, 2999928367162768599115384910104728954564717204962764918210989387649698448273int);
    assert((2999928367162768599115384910104728954564717204962764918210989387649698448273int * 2999928367162768599115384910104728954564717204962764918210989387649698448273int) % ll == 1701005262544696960460800071136440405356284911057456406547161328747339367493int);
    lemma_six_sq_step(85070591730234615865843651857942052864nat, 1701005262544696960460800071136440405356284911057456406547161328747339367493int);
    assert((1701005262544696960460800071136440405356284911057456406547161328747339367493int * 1701005262544696960460800071136440405356284911057456406547161328747339367493int) % ll == 2051635296420797240174073824644602154593449231931567088598181259067115629389int);
    lemma_six_sq_mul_step(170141183460469231731687303715884105728nat, 2051635296420797240174073824644602154593449231931567088598181259067115629389int);
    assert((((2051635296420797240174073824644602154593449231931567088598181259067115629389int * 2051635296420797240174073824644602154593449231931567088598181259067115629389int) % ll) * 6int) % ll == 7150432511864464918091895823613936606384968585137494243445314145999160156055int);
    lemma_six_sq_step(340282366920938463463374607431768211457nat, 7150432511864464918091895823613936606384968585137494243445314145999160156055int);
    assert((7150432511864464918091895823613936606384968585137494243445314145999160156055int * 7150432511864464918091895823613936606384968585137494243445314145999160156055int) % ll == 2158272549898244899540093607800047676668851473220386885892616709312651479376int);
    lemma_six_sq_mul_step(680564733841876926926749214863536422914nat, 2158272549898244899540093607800047676668851473220386885892616709312651479376int);
    assert((((2158272549898244899540093607800047676668851473220386885892616709312651479376int * 2158272549898244899540093607800047676668851473220386885892616709312651479376int) % ll) * 6int) % ll == 3302850510682788831837343412558494450509778840718760040447149604667976944629int);
    lemma_six_sq_step(1361129467683753853853498429727072845829nat, 3302850510682788831837343412558494450509778840718760040447149604667976944629int);
    assert((3302850510682788831837343412558494450509778840718760040447149604667976944629int * 3302850510682788831837343412558494450509778840718760040447149604667976944629int) % ll == 4259111587408908368137933738899467298162206463290985506359295297113097026450int);
    lemma_six_sq_step(2722258935367507707706996859454145691658nat, 4259111587408908368137933738899467298162206463290985506359295297113097026450int);
    assert((4259111587408908368137933738899467298162206463290985506359295297113097026450int * 4259111587408908368137933738899467298162206463290985506359295297113097026450int) % ll == 5030442236106160124302686068805868357285164508994018936657579517515553777168int);
    lemma_six_sq_mul_step(5444517870735015415413993718908291383316nat, 5030442236106160124302686068805868357285164508994018936657579517515553777168int);
    assert((((5030442236106160124302686068805868357285164508994018936657579517515553777168int * 5030442236106160124302686068805868357285164508994018936657579517515553777168int) % ll) * 6int) % ll == 937687273626361271011563605564663073928297877413526114935344585200421947263int);
    lemma_six_sq_mul_step(10889035741470030830827987437816582766633nat, 937687273626361271011563605564663073928297877413526114935344585200421947263int);
    assert((((937687273626361271011563605564663073928297877413526114935344585200421947263int * 937687273626361271011563605564663073928297877413526114935344585200421947263int) % ll) * 6int) % ll == 2656576622886572618194959477238634195453345296514265295393004879902232719227int);
    lemma_six_sq_step(21778071482940061661655974875633165533267nat, 2656576622886572618194959477238634195453345296514265295393004879902232719227int);
    assert((2656576622886572618194959477238634195453345296514265295393004879902232719227int * 2656576622886572618194959477238634195453345296514265295393004879902232719227int) % ll == 5717609444261417398415655461144331582572895405043091524127271937468440427913int);
    lemma_six_sq_mul_step(43556142965880123323311949751266331066534nat, 5717609444261417398415655461144331582572895405043091524127271937468440427913int);
    assert((((5717609444261417398415655461144331582572895405043091524127271937468440427913int * 5717609444261417398415655461144331582572895405043091524127271937468440427913int) % ll) * 6int) % ll == 2454167860767599500476803614931968598124738330928216771775715153843058124822int);
    lemma_six_sq_mul_step(87112285931760246646623899502532662133069nat, 2454167860767599500476803614931968598124738330928216771775715153843058124822int);
    assert((((2454167860767599500476803614931968598124738330928216771775715153843058124822int * 2454167860767599500476803614931968598124738330928216771775715153843058124822int) % ll) * 6int) % ll == 6594403112698651472620118171233668955757531548990343641539766166040961918852int);
    lemma_six_sq_mul_step(174224571863520493293247799005065324266139nat, 6594403112698651472620118171233668955757531548990343641539766166040961918852int);
    assert((((6594403112698651472620118171233668955757531548990343641539766166040961918852int * 6594403112698651472620118171233668955757531548990343641539766166040961918852int) % ll) * 6int) % ll == 7069989999016372918301548578353042915690248373085636194371498997625562245891int);
    lemma_six_sq_mul_step(348449143727040986586495598010130648532279nat, 7069989999016372918301548578353042915690248373085636194371498997625562245891int);
    assert((((7069989999016372918301548578353042915690248373085636194371498997625562245891int * 7069989999016372918301548578353042915690248373085636194371498997625562245891int) % ll) * 6int) % ll == 2508386527123226707631074267166584251520464430005691305811485092357645528877int);
    lemma_six_sq_step(696898287454081973172991196020261297064559nat, 2508386527123226707631074267166584251520464430005691305811485092357645528877int);
    assert((2508386527123226707631074267166584251520464430005691305811485092357645528877int * 2508386527123226707631074267166584251520464430005691305811485092357645528877int) % ll == 7233464634080706125588650663485667025833405173436573194568234985531218938413int);
    lemma_six_sq_mul_step(1393796574908163946345982392040522594129118nat, 7233464634080706125588650663485667025833405173436573194568234985531218938413int);
    assert((((7233464634080706125588650663485667025833405173436573194568234985531218938413int * 7233464634080706125588650663485667025833405173436573194568234985531218938413int) % ll) * 6int) % ll == 918913615017792602180382618084287037920007758188378262029367243569179052738int);
    lemma_six_sq_mul_step(2787593149816327892691964784081045188258237nat, 918913615017792602180382618084287037920007758188378262029367243569179052738int);
    assert((((918913615017792602180382618084287037920007758188378262029367243569179052738int * 918913615017792602180382618084287037920007758188378262029367243569179052738int) % ll) * 6int) % ll == 2614866218495298312658202733677944063065968114712660106415271882378776976266int);
    lemma_six_sq_mul_step(5575186299632655785383929568162090376516475nat, 2614866218495298312658202733677944063065968114712660106415271882378776976266int);
    assert((((2614866218495298312658202733677944063065968114712660106415271882378776976266int * 2614866218495298312658202733677944063065968114712660106415271882378776976266int) % ll) * 6int) % ll == 5364068493698069505923659031996026966458782765505966264235582531794899513907int);
    lemma_six_sq_mul_step(11150372599265311570767859136324180753032951nat, 5364068493698069505923659031996026966458782765505966264235582531794899513907int);
    assert((((5364068493698069505923659031996026966458782765505966264235582531794899513907int * 5364068493698069505923659031996026966458782765505966264235582531794899513907int) % ll) * 6int) % ll == 1003505643587859993138232876960777307489858612245694558456609875076471904271int);
    lemma_six_sq_mul_step(22300745198530623141535718272648361506065903nat, 1003505643587859993138232876960777307489858612245694558456609875076471904271int);
    assert((((1003505643587859993138232876960777307489858612245694558456609875076471904271int * 1003505643587859993138232876960777307489858612245694558456609875076471904271int) % ll) * 6int) % ll == 1253760976728875004309588043083398866973402427331424183263252857323037004610int);
    lemma_six_sq_step(44601490397061246283071436545296723012131807nat, 1253760976728875004309588043083398866973402427331424183263252857323037004610int);
    assert((1253760976728875004309588043083398866973402427331424183263252857323037004610int * 1253760976728875004309588043083398866973402427331424183263252857323037004610int) % ll == 2132893617413828923680223945557469636275755085248508117528571484578382823018int);
    lemma_six_sq_step(89202980794122492566142873090593446024263614nat, 2132893617413828923680223945557469636275755085248508117528571484578382823018int);
    assert((2132893617413828923680223945557469636275755085248508117528571484578382823018int * 2132893617413828923680223945557469636275755085248508117528571484578382823018int) % ll == 457699370581179563567745941527926464090687390526969912753955353155677586714int);
    lemma_six_sq_mul_step(178405961588244985132285746181186892048527228nat, 457699370581179563567745941527926464090687390526969912753955353155677586714int);
    assert((((457699370581179563567745941527926464090687390526969912753955353155677586714int * 457699370581179563567745941527926464090687390526969912753955353155677586714int) % ll) * 6int) % ll == 5095323590536874790664177931899141968984417704210543177559508585401699498881int);
    lemma_six_sq_mul_step(356811923176489970264571492362373784097054457nat, 5095323590536874790664177931899141968984417704210543177559508585401699498881int);
    assert((((5095323590536874790664177931899141968984417704210543177559508585401699498881int * 5095323590536874790664177931899141968984417704210543177559508585401699498881int) % ll) * 6int) % ll == 4663951809634834779398280518073136235068523576092215867373725814104557032003int);
    lemma_six_sq_mul_step(713623846352979940529142984724747568194108915nat, 4663951809634834779398280518073136235068523576092215867373725814104557032003int);
    assert((((4663951809634834779398280518073136235068523576092215867373725814104557032003int * 4663951809634834779398280518073136235068523576092215867373725814104557032003int) % ll) * 6int) % ll == 4616453962123124373483243119149734424213154921150315900483891671684025572352int);
}

/// Steps 151 through 175 of the chain.
#[verifier::rlimit(100)]
proof fn lemma_six_chain_6()
    ensures
        pow(6, 47890485652059026823698344598447161988269180827539388nat) % (field_order() as int) == 1635045242888007739884955349519040560353213378768020918135614477706654237778int,
{
    let ll = field_order() as int;
    lemma_six_chain_5();
    lemma_six_sq_step(1427247692705959881058285969449495136388217831nat, 4616453962123124373483243119149734424213154921150315900483891671684025572352int);
    assert((4616453962123124373483243119149734424213154921150315900483891671684025572352int * 4616453962123124373483243119149734424213154921150315900483891671684025572352int) % ll == 2154794443538910123872584853420794840724682670941744115665709768809005197422int);
    lemma_six_sq_mul_step(2854495385411919762116571938898990272776435662nat, 2154794443538910123872584853420794840724682670941744115665709768809005197422int);
    assert((((2154794443538910123872584853420794840724682670941744115665709768809005197422int * 2154794443538910123872584853420794840724682670941744115665709768809005197422int) % ll) * 6int) % ll == 6292358919675452179684085770164286406277386702313966281407504573598374479455int);
    lemma_six_sq_mul_step(5708990770823839524233143877797980545552871325nat, 6292358919675452179684085770164286406277386702313966281407504573598374479455int);
    assert((((6292358919675452179684085770164286406277386702313966281407504573598374479455int * 6292358919675452179684085770164286406277386702313966281407504573598374479455int) % ll) * 6int) % ll == 2879418799797826280676625228060443106702497471955494481021375126161290362996int);
    lemma_six_sq_mul_step(11417981541647679048466287755595961091105742651nat, 2879418799797826280676625228060443106702497471955494481021375126161290362996int);
    assert((((2879418799797826280676625228060443106702497471955494481021375126161290362996int * 2879418799797826280676625228060443106702497471955494481021375126161290362996int) % ll) * 6int) % ll == 2155583413825003214193938077440639666692852125943311052701369300837699771490int);
    lemma_six_sq_mul_step(22835963083295358096932575511191922182211485303nat, 2155583413825003214193938077440639666692852125943311052701369300837699771490int);
    assert((((2155583413825003214193938077440639666692852125943311052701369300837699771490int * 2155583413825003214193938077440639666692852125943311052701369300837699771490int) % ll) * 6int) % ll == 1721712770561194543273913679359679068768513593286319236120573276736925018241int);
    lemma_six_sq_step(45671926166590716193865151022383844364422970607nat, 1721712770561194543273913679359679068768513593286319236120573276736925018241int);
    assert((1721712770561194543273913679359679068768513593286319236120573276736925018241int * 1721712770561194543273913679359679068768513593286319236120573276736925018241int) % ll == 124130841574621357137502224977608123881172954713524120191862983118269067087int);
    lemma_six_sq_mul_step(91343852333181432387730302044767688728845941214nat, 124130841574621357137502224977608123881172954713524120191862983118269067087int);
    assert((((124130841574621357137502224977608123881172954713524120191862983118269067087int * 124130841574621357137502224977608123881172954713524120191862983118269067087int) % ll) * 6int) % ll == 2715024770111656575177110553697084598376288053230385935065084487759859823309int);
    lemma_six_sq_step(182687704666362864775460604089535377457691882429nat, 2715024770111656575177110553697084598376288053230385935065084487759859823309int);
    assert((2715024770111656575177110553697084598376288053230385935065084487759859823309int * 2715024770111656575177110553697084598376288053230385935065084487759859823309int) % ll == 1913741390223189727212217508040707450651904962965012196635339817399909075488int);
    lemma_six_sq_mul_step(365375409332725729550921208179070754915383764858nat, 1913741390223189727212217508040707450651904962965012196635339817399909075488int);
    assert((((1913741390223189727212217508040707450651904962965012196635339817399909075488int * 1913741390223189727212217508040707450651904962965012196635339817399909075488int) % ll) * 6int) % ll == 4157042588177701977684204285190716905340043376665805652214554138601704072568int);
    lemma_six_sq_step(730750818665451459101842416358141509830767529717nat, 4157042588177701977684204285190716905340043376665805652214554138601704072568int);
    assert((4157042588177701977684204285190716905340043376665805652214554138601704072568int * 4157042588177701977684204285190716905340043376665805652214554138601704072568int) % ll == 6828061855134604496221677328049849168968408071433083050869441521096103947417int);
    lemma_six_sq_step(1461501637330902918203684832716283019661535059434nat, 6828061855134604496221677328049849168968408071433083050869441521096103947417int);
    assert((6828061855134604496221677328049849168968408071433083050869441521096103947417int * 6828061855134604496221677328049849168968408071433083050869441521096103947417int) % ll == 4194511926184501048414323404350914542382502552576696400062056292960341911580int);
    lemma_six_sq_step(2923003274661805836407369665432566039323070118868nat, 4194511926184501048414323404350914542382502552576696400062056292960341911580int);
    assert((4194511926184501048414323404350914542382502552576696400062056292960341911580int * 4194511926184501048414323404350914542382502552576696400062056292960341911580int) % ll == 6038258680143620022508868181542930710381302758221689977230510757003133299288int);
    lemma_six_sq_mul_step(5846006549323611672814739330865132078646140237736nat, 6038258680143620022508868181542930710381302758221689977230510757003133299288int);
    assert((((6038258680143620022508868181542930710381302758221689977230510757003133299288int * 6038258680143620022508868181542930710381302758221689977230510757003133299288int) % ll) * 6int) % ll == 4740852349039965797457609277627132551756521623104825670153894464602615162843int);
    lemma_six_sq_step(11692013098647223345629478661730264157292280475473nat, 4740852349039965797457609277627132551756521623104825670153894464602615162843int);
    assert((4740852349039965797457609277627132551756521623104825670153894464602615162843int * 4740852349039965797457609277627132551756521623104825670153894464602615162843int) % ll == 6786252937366022887040492111257312544025383445176904001335764890409815254818int);
    lemma_six_sq_mul_step(23384026197294446691258957323460528314584560950946nat, 6786252937366022887040492111257312544025383445176904001335764890409815254818int);
    assert((((6786252937366022887040492111257312544025383445176904001335764890409815254818int * 6786252937366022887040492111257312544025383445176904001335764890409815254818int) % ll) * 6int) % ll == 1611081742571604394642754322272118327255724911348225618492964653348981840293int);
    lemma_six_sq_mul_step(46768052394588893382517914646921056629169121901893nat, 1611081742571604394642754322272118327255724911348225618492964653348981840293int);
    assert((((1611081742571604394642754322272118327255724911348225618492964653348981840293int * 1611081742571604394642754322272118327255724911348225618492964653348981840293int) % ll) * 6int) % ll == 6584233874368661825414925817266053651770148905136667236439911420517074210798int);
    lemma_six_sq_mul_step(93536104789177786765035829293842113258338243803787nat, 6584233874368661825414925817266053651770148905136667236439911420517074210798int);
    assert((((6584233874368661825414925817266053651770148905136667236439911420517074210798int * 6584233874368661825414925817266053651770148905136667236439911420517074210798int) % ll) * 6int) % ll == 6431366446814285506423401722192900378692852473698632835541187690769154320821int);
    lemma_six_sq_mul_step(187072209578355573530071658587684226516676487607575nat, 6431366446814285506423401722192900378692852473698632835541187690769154320821int);
    assert((((6431366446814285506423401722192900378692852473698632835541187690769154320821int * 6431366446814285506423401722192900378692852473698632835541187690769154320821int) % ll) * 6int) % ll == 1982764113774526592741431150767681286469844109063709078368968618365372477203int);
    lemma_six_sq_step(374144419156711147060143317175368453033352975215151nat, 1982764113774526592741431150767681286469844109063709078368968618365372477203int);
    assert((1982764113774526592741431150767681286469844109063709078368968618365372477203int * 1982764113774526592741431150767681286469844109063709078368968618365372477203int) % ll == 1349090473823049281410764120827379013337298398594579734653532391361619110595int);
    lemma_six_sq_mul_step(748288838313422294120286634350736906066705950430302nat, 1349090473823049281410764120827379013337298398594579734653532391361619110595int);
    assert((((1349090473823049281410764120827379013337298398594579734653532391361619110595int * 1349090473823049281410764120827379013337298398594579734653532391361619110595int) % ll) * 6int) % ll == 3039465910160508351925579474817667204465544434551379377884798653279902443500int);
    lemma_six_sq_mul_step(1496577676626844588240573268701473812133411900860605nat, 3039465910160508351925579474817667204465544434551379377884798653279902443500int);
    assert((((3039465910160508351925579474817667204465544434551379377884798653279902443500int * 3039465910160508351925579474817667204465544434551379377884798653279902443500int) % ll) * 6int) % ll == 491557843349168423529790487763663557204203211347748020180103091688002500285int);
    lemma_six_sq_mul_step(2993155353253689176481146537402947624266823801721211nat, 491557843349168423529790487763663557204203211347748020180103091688002500285int);
    assert((((491557843349168423529790487763663557204203211347748020180103091688002500285int * 491557843349168423529790487763663557204203211347748020180103091688002500285int) % ll) * 6int) % ll == 1419098214875809783186505015440802919308852088244482675258647213560315850285int);
    lemma_six_sq_mul_step(5986310706507378352962293074805895248533647603442423nat, 1419098214875809783186505015440802919308852088244482675258647213560315850285int);
    assert((((1419098214875809783186505015440802919308852088244482675258647213560315850285int * 1419098214875809783186505015440802919308852088244482675258647213560315850285int) % ll) * 6int) % ll == 7144560373418677244486660209398933119138017734588946244787278464849250964898int);
    lemma_six_sq_step(11972621413014756705924586149611790497067295206884847nat, 7144560373418677244486660209398933119138017734588946244787278464849250964898int);
    assert((7144560373418677244486660209398933119138017734588946244787278464849250964898int * 7144560373418677244486660209398933119138017734588946244787278464849250964898int) % ll == 4160275220897981128161076911069966299454561891605143228039497849654606826107int);
    lemma_six_sq_step(23945242826029513411849172299223580994134590413769694nat, 4160275220897981128161076911069966299454561891605143228039497849654606826107int);
    assert((4160275220897981128161076911069966299454561891605143228039497849654606826107int * 4160275220897981128161076911069966299454561891605143228039497849654606826107int) % ll == 1635045242888007739884955349519040560353213378768020918135614477706654237778int);
}

/// Steps 176 through 200 of the chain.
#[verifier::rlimit(100)]
proof fn lemma_six_chain_7()
    ensures
        pow(6, 1606938044258990275541962092341162602528363025773374152205697nat) % (field_order() as int) == 3924330848143026584790803923108163071579714592164438349577863930661552891425int,
{
    let ll = field_order() as int;
    lemma_six_chain_6();
    lemma_six_sq_mul_step(47890485652059026823698344598447161988269180827539388nat, 1635045242888007739884955349519040560353213378768020918135614477706654237778int);
    assert((((1635045242888007739884955349519040560353213378768020918135614477706654237778int * 1635045242888007739884955349519040560353213378768020918135614477706654237778int) % ll) * 6int) % ll == 4055473459682763108795865008945622763712129826870382717346528278537030471106int);
    lemma_six_sq_mul_step(95780971304118053647396689196894323976538361655078777nat, 4055473459682763108795865008945622763712129826870382717346528278537030471106int);
    assert((((4055473459682763108795865008945622763712129826870382717346528278537030471106int * 4055473459682763108795865008945622763712129826870382717346528278537030471106int) % ll) * 6int) % ll == 5552359155757473342966562105524461182838251667328746654637102512701226596115int);
    lemma_six_sq_mul_step(191561942608236107294793378393788647953076723310157555nat, 5552359155757473342966562105524461182838251667328746654637102512701226596115int);
    assert((((5552359155757473342966562105524461182838251667328746654637102512701226596115int * 5552359155757473342966562105524461182838251667328746654637102512701226596115int) % ll) * 6int) % ll == 1680962288445073929503048330110201563105319553247592736664086487064218341135int);
    lemma_six_sq_step(383123885216472214589586756787577295906153446620315111nat, 1680962288445073929503048330110201563105319553247592736664086487064218341135int);
    assert((1680962288445073929503048330110201563105319553247592736664086487064218341135int * 1680962288445073929503048330110201563105319553247592736664086487064218341135int) % ll == 1756198291502629842038416759520742791971116870201520677371360703951074832982int);
    lemma_six_sq_step(766247770432944429179173513575154591812306893240630222nat, 1756198291502629842038416759520742791971116870201520677371360703951074832982int);
    assert((1756198291502629842038416759520742791971116870201520677371360703951074832982int * 1756198291502629842038416759520742791971116870201520677371360703951074832982int) % ll == 2014927859673746426022480011281797117263905922289738337198888781688751395714int);
    lemma_six_sq_mul_step(1532495540865888858358347027150309183624613786481260444nat, 2014927859673746426022480011281797117263905922289738337198888781688751395714int);
    assert((((2014927859673746426022480011281797117263905922289738337198888781688751395714int * 2014927859673746426022480011281797117263905922289738337198888781688751395714int) % ll) * 6int) % ll == 6015133227487118858078520739006181996483181954856636273637079348205923668813int);
    lemma_six_sq_mul_step(3064991081731777716716694054300618367249227572962520889nat, 6015133227487118858078520739006181996483181954856636273637079348205923668813int);
    assert((((6015133227487118858078520739006181996483181954856636273637079348205923668813int * 6015133227487118858078520739006181996483181954856636273637079348205923668813int) % ll) * 6int) % ll == 1463985842193299343687960213113511952097273102820330925400951443809815026607int);
    lemma_six_sq_step(6129982163463555433433388108601236734498455145925041779nat, 1463985842193299343687960213113511952097273102820330925400951443809815026607int);
    assert((1463985842193299343687960213113511952097273102820330925400951443809815026607int * 1463985842193299343687960213113511952097273102820330925400951443809815026607int) % ll == 2487709919558649677057001367855660982096223549963469995160607850297902936357int);
    lemma_six_sq_mul_step(12259964326927110866866776217202473468996910291850083558nat, 2487709919558649677057001367855660982096223549963469995160607850297902936357int);
    assert((((2487709919558649677057001367855660982096223549963469995160607850297902936357int * 2487709919558649677057001367855660982096223549963469995160607850297902936357int) % ll) * 6int) % ll == 6617171227279437927026882252349173966230600683633366307006111722411684213375int);
    lemma_six_sq_step(24519928653854221733733552434404946937993820583700167117nat, 6617171227279437927026882252349173966230600683633366307006111722411684213375int);
    assert((6617171227279437927026882252349173966230600683633366307006111722411684213375int * 6617171227279437927026882252349173966230600683633366307006111722411684213375int) % ll == 2099803465011006391845487874277207341216439339350583475197358491401962877595int);
    lemma_six_sq_mul_step(49039857307708443467467104868809893875987641167400334234nat, 2099803465011006391845487874277207341216439339350583475197358491401962877595int);
    assert((((2099803465011006391845487874277207341216439339350583475197358491401962877595int * 2099803465011006391845487874277207341216439339350583475197358491401962877595int) % ll) * 6int) % ll == 1188196346333406547585645634283092551807612452324588315307663860271776101351int);
    lemma_six_sq_mul_step(98079714615416886934934209737619787751975282334800668469nat, 1188196346333406547585645634283092551807612452324588315307663860271776101351int);
    assert((((1188196346333406547585645634283092551807612452324588315307663860271776101351int * 1188196346333406547585645634283092551807612452324588315307663860271776101351int) % ll) * 6int) % ll == 1533675225601575557821727466933326396087158416779693535616191731972210562962int);
    lemma_six_sq_step(196159429230833773869868419475239575503950564669601336939nat, 1533675225601575557821727466933326396087158416779693535616191731972210562962int);
    assert((1533675225601575557821727466933326396087158416779693535616191731972210562962int * 1533675225601575557821727466933326396087158416779693535616191731972210562962int) % ll == 3873200019357871118422733816508898398650346506046283160318010598271317481042int);
    lemma_six_sq_step(392318858461667547739736838950479151007901129339202673878nat, 3873200019357871118422733816508898398650346506046283160318010598271317481042int);
    assert((3873200019357871118422733816508898398650346506046283160318010598271317481042int * 3873200019357871118422733816508898398650346506046283160318010598271317481042int) % ll == 4418479526417634214884271503493091069912853698496561307436281699528832943782int);
    lemma_six_sq_mul_step(784637716923335095479473677900958302015802258678405347756nat, 4418479526417634214884271503493091069912853698496561307436281699528832943782int);
    assert((((4418479526417634214884271503493091069912853698496561307436281699528832943782int * 4418479526417634214884271503493091069912853698496561307436281699528832943782int) % ll) * 6int) % ll == 6260972384695122670811391905450607397780231220626349840942273680962926088324int);
    lemma_six_sq_step(1569275433846670190958947355801916604031604517356810695513nat, 6260972384695122670811391905450607397780231220626349840942273680962926088324int);
    assert((6260972384695122670811391905450607397780231220626349840942273680962926088324int * 6260972384695122670811391905450607397780231220626349840942273680962926088324int) % ll == 3703236682506771829804956518835380020403107270904426458816279013418600281408int);
    lemma_six_sq_mul_step(3138550867693340381917894711603833208063209034713621391026nat, 3703236682506771829804956518835380020403107270904426458816279013418600281408int);
    assert((((3703236682506771829804956518835380020403107270904426458816279013418600281408int * 3703236682506771829804956518835380020403107270904426458816279013418600281408int) % ll) * 6int) % ll == 7156349367390976458850867673940078053334868033773977556165533742621635797811int);
    lemma_six_sq_mul_step(6277101735386680763835789423207666416126418069427242782053nat, 7156349367390976458850867673940078053334868033773977556165533742621635797811int);
    assert((((7156349367390976458850867673940078053334868033773977556165533742621635797811int * 7156349367390976458850867673940078053334868033773977556165533742621635797811int) % ll) * 6int) % ll == 6288785839967043935504078944440266392062409696523895242086969622642020658651int);
    lemma_six_sq_step(12554203470773361527671578846415332832252836138854485564107nat, 6288785839967043935504078944440266392062409696523895242086969622642020658651int);
    assert((6288785839967043935504078944440266392062409696523895242086969622642020658651int * 6288785839967043935504078944440266392062409696523895242086969622642020658651int) % ll == 2614897229181679510563141863110164618052384971511691112094136303921347020974int);
    lemma_six_sq_step(25108406941546723055343157692830665664505672277708971128214nat, 2614897229181679510563141863110164618052384971511691112094136303921347020974int);
    assert((2614897229181679510563141863110164618052384971511691112094136303921347020974int * 2614897229181679510563141863110164618052384971511691112094136303921347020974int) % ll == 2304318811006503367663027475114368030676950261046020593672467608019517351282int);
    lemma_six_sq_step(50216813883093446110686315385661331329011344555417942256428nat, 2304318811006503367663027475114368030676950261046020593672467608019517351282int);
    assert((2304318811006503367663027475114368030676950261046020593672467608019517351282int * 2304318811006503367663027475114368030676950261046020593672467608019517351282int) % ll == 4437538808470114944370547692083128613725665503908822655767338669307214228075int);
    lemma_six_sq_step(100433627766186892221372630771322662658022689110835884512856nat, 4437538808470114944370547692083128613725665503908822655767338669307214228075int);
    assert((4437538808470114944370547692083128613725665503908822655767338669307214228075int * 4437538808470114944370547692083128613725665503908822655767338669307214228075int) % ll == 3242427023891539942354372271698765464450081035472989414482072709978554796680int);
    lemma_six_sq_step(200867255532373784442745261542645325316045378221671769025712nat, 3242427023891539942354372271698765464450081035472989414482072709978554796680int);
    assert((3242427023891539942354372271698765464450081035472989414482072709978554796680int * 3242427023891539942354372271698765464450081035472989414482072709978554796680int) % ll == 5551773361294229771597566094346248388192729787407673927578419438206888800547int);
    lemma_six_sq_step(401734511064747568885490523085290650632090756443343538051424nat, 5551773361294229771597566094346248388192729787407673927578419438206888800547int);
    assert((5551773361294229771597566094346248388192729787407673927578419438206888800547int * 5551773361294229771597566094346248388192729787407673927578419438206888800547int) % ll == 2657088743403910872167790474625961215429091416939835308279944283276712819404int);
    lemma_six_sq_mul_step(803469022129495137770981046170581301264181512886687076102848nat, 2657088743403910872167790474625961215429091416939835308279944283276712819404int);
    assert((((2657088743403910872167790474625961215429091416939835308279944283276712819404int * 2657088743403910872167790474625961215429091416939835308279944283276712819404int) % ll) * 6int) % ll == 3924330848143026584790803923108163071579714592164438349577863930661552891425int);
}

/// Steps 201 through 225 of the chain.
#[verifier::rlimit(100)]
proof fn lemma_six_chain_8()
    ensures
        pow(6, 53919893334301279589334030174039261347480985219626930400743715005259nat) % (field_order() as int) == 1738275058609575251173553215565728465116933126677616702560625176573635473636int,
{
    let ll = field_order() as int;
    lemma_six_chain_7();
    lemma_six_sq_step(1606938044258990275541962092341162602528363025773374152205697nat, 3924330848143026584790803923108163071579714592164438349577863930661552891425int);
    assert((3924330848143026584790803923108163071579714592164438349577863930661552891425int * 3924330848143026584790803923108163071579714592164438349577863930661552891425int) % ll == 2781799489855838816149497339217692635787326095074679912884210287132037067638int);
    lemma_six_sq_step(3213876088517980551083924184682325205056726051546748304411394nat, 2781799489855838816149497339217692635787326095074679912884210287132037067638int);
    assert((2781799489855838816149497339217692635787326095074679912884210287132037067638int * 2781799489855838816149497339217692635787326095074679912884210287132037067638int) % ll == 1910975635979226031984796025305172601512883388375674810441877080783199045321int);
    lemma_six_sq_mul_step(6427752177035961102167848369364650410113452103093496608822788nat, 1910975635979226031984796025305172601512883388375674810441877080783199045321int);
    assert((((1910975635979226031984796025305172601512883388375674810441877080783199045321int * 1910975635979226031984796025305172601512883388375674810441877080783199045321int) % ll) * 6int) % ll == 4003329693073878753388817964111084888610942814923130611849918724471468272301int);
    lemma_six_sq_step(12855504354071922204335696738729300820226904206186993217645577nat, 4003329693073878753388817964111084888610942814923130611849918724471468272301int);
    assert((4003329693073878753388817964111084888610942814923130611849918724471468272301int * 4003329693073878753388817964111084888610942814923130611849918724471468272301int) % ll == 3499205833509581271679950165160145535939647024223234330779143264392850701196int);
    lemma_six_sq_step(25711008708143844408671393477458601640453808412373986435291154nat, 3499205833509581271679950165160145535939647024223234330779143264392850701196int);
    assert((3499205833509581271679950165160145535939647024223234330779143264392850701196int * 3499205833509581271679950165160145535939647024223234330779143264392850701196int) % ll == 2843462203331389833004198223710472687444626063464084492297109446820373714990int);
    lemma_six_sq_mul_step(51422017416287688817342786954917203280907616824747972870582308nat, 2843462203331389833004198223710472687444626063464084492297109446820373714990int);
    assert((((2843462203331389833004198223710472687444626063464084492297109446820373714990int * 2843462203331389833004198223710472687444626063464084492297109446820373714990int) % ll) * 6int) % ll == 7168549840902762189858242144244113011622546900825915873159653876791925812313int);
    lemma_six_sq_mul_step(102844034832575377634685573909834406561815233649495945741164617nat, 7168549840902762189858242144244113011622546900825915873159653876791925812313int);
    assert((((7168549840902762189858242144244113011622546900825915873159653876791925812313int * 7168549840902762189858242144244113011622546900825915873159653876791925812313int) % ll) * 6int) % ll == 1715527883525096778192204645881912340083978967580458006922257652968151082675int);
    lemma_six_sq_step(205688069665150755269371147819668813123630467298991891482329235nat, 1715527883525096778192204645881912340083978967580458006922257652968151082675int);
    assert((1715527883525096778192204645881912340083978967580458006922257652968151082675int * 1715527883525096778192204645881912340083978967580458006922257652968151082675int) % ll == 464912003224265096553857957413084820920295836900025757738404701432998099268int);
    lemma_six_sq_step(411376139330301510538742295639337626247260934597983782964658470nat, 464912003224265096553857957413084820920295836900025757738404701432998099268int);
    assert((464912003224265096553857957413084820920295836900025757738404701432998099268int * 464912003224265096553857957413084820920295836900025757738404701432998099268int) % ll == 2922065485474941041894015028561751662487065766750040352806412540268627802454int);
    lemma_six_sq_step(822752278660603021077484591278675252494521869195967565929316940nat, 2922065485474941041894015028561751662487065766750040352806412540268627802454int);
    assert((2922065485474941041894015028561751662487065766750040352806412540268627802454int * 2922065485474941041894015028561751662487065766750040352806412540268627802454int) % ll == 3394009000377875266978321922859249684068321652676942567811993723323232251623int);
    lemma_six_sq_mul_step(1645504557321206042154969182557350504989043738391935131858633880nat, 3394009000377875266978321922859249684068321652676942567811993723323232251623int);
    assert((((3394009000377875266978321922859249684068321652676942567811993723323232251623int * 3394009000377875266978321922859249684068321652676942567811993723323232251623int) % ll) * 6int) % ll == 913381173548530979637814828276074065470435803470674255067787599886592229500int);
    lemma_six_sq_mul_step(3291009114642412084309938365114701009978087476783870263717267761nat, 913381173548530979637814828276074065470435803470674255067787599886592229500int);
    assert((((913381173548530979637814828276074065470435803470674255067787599886592229500int * 913381173548530979637814828276074065470435803470674255067787599886592229500int) % ll) * 6int) % ll == 7200543896008311426204494512390617913388783524404700654526764538780103908240int);
    lemma_six_sq_step(6582018229284824168619876730229402019956174953567740527434535523nat, 7200543896008311426204494512390617913388783524404700654526764538780103908240int);
    assert((7200543896008311426204494512390617913388783524404700654526764538780103908240int * 7200543896008311426204494512390617913388783524404700654526764538780103908240int) % ll == 2644442920439583580779679546666161263042404055793513630193719576511618926965int);
    lemma_six_sq_step(13164036458569648337239753460458804039912349907135481054869071046nat, 2644442920439583580779679546666161263042404055793513630193719576511618926965int);
    assert((2644442920439583580779679546666161263042404055793513630193719576511618926965int * 2644442920439583580779679546666161263042404055793513630193719576511618926965int) % ll == 6483778662454362022968941216876025795785653623221954957522480441550028884608int);
    lemma_six_sq_step(26328072917139296674479506920917608079824699814270962109738142092nat, 6483778662454362022968941216876025795785653623221954957522480441550028884608int);
    assert((6483778662454362022968941216876025795785653623221954957522480441550028884608int * 6483778662454362022968941216876025795785653623221954957522480441550028884608int) % ll == 63101467676224551496686592310858245606382856233354244364750057442453642216int);
    lemma_six_sq_mul_step(52656145834278593348959013841835216159649399628541924219476284184nat, 63101467676224551496686592310858245606382856233354244364750057442453642216int);
    assert((((63101467676224551496686592310858245606382856233354244364750057442453642216int * 63101467676224551496686592310858245606382856233354244364750057442453642216int) % ll) * 6int) % ll == 3976915868755178901913925625834050299771593418080381069761701692994362134769int);
    lemma_six_sq_mul_step(105312291668557186697918027683670432319298799257083848438952568369nat, 3976915868755178901913925625834050299771593418080381069761701692994362134769int);
    assert((((3976915868755178901913925625834050299771593418080381069761701692994362134769int * 3976915868755178901913925625834050299771593418080381069761701692994362134769int) % ll) * 6int) % ll == 1963410470597933763603315419981189921253925661082788732073040816078916482844int);
    lemma_six_sq_step(210624583337114373395836055367340864638597598514167696877905136739nat, 1963410470597933763603315419981189921253925661082788732073040816078916482844int);
    assert((1963410470597933763603315419981189921253925661082788732073040816078916482844int * 1963410470597933763603315419981189921253925661082788732073040816078916482844int) % ll == 1448873379916855396825928548642438848450970230293111617724437204315123467992int);
    lemma_six_sq_mul_step(421249166674228746791672110734681729277195197028335393755810273478nat, 1448873379916855396825928548642438848450970230293111617724437204315123467992int);
    assert((((1448873379916855396825928548642438848450970230293111617724437204315123467992int * 1448873379916855396825928548642438848450970230293111617724437204315123467992int) % ll) * 6int) % ll == 1911837444108474812390931527158986578181635547162776213941228549365729475634int);
    lemma_six_sq_step(842498333348457493583344221469363458554390394056670787511620546957nat, 1911837444108474812390931527158986578181635547162776213941228549365729475634int);
    assert((1911837444108474812390931527158986578181635547162776213941228549365729475634int * 1911837444108474812390931527158986578181635547162776213941228549365729475634int) % ll == 1486671515030150793192342224452355496704689436187841893314126980347622539508int);
    lemma_six_sq_step(1684996666696914987166688442938726917108780788113341575023241093914nat, 1486671515030150793192342224452355496704689436187841893314126980347622539508int);
    assert((1486671515030150793192342224452355496704689436187841893314126980347622539508int * 1486671515030150793192342224452355496704689436187841893314126980347622539508int) % ll == 4755730685930608882988435841788795001567181025391083011211708545446469533746int);
    lemma_six_sq_mul_step(3369993333393829974333376885877453834217561576226683150046482187828nat, 4755730685930608882988435841788795001567181025391083011211708545446469533746int);
    assert((((4755730685930608882988435841788795001567181025391083011211708545446469533746int * 4755730685930608882988435841788795001567181025391083011211708545446469533746int) % ll) * 6int) % ll == 184749333728248542570142791717574184416245617813779191188968695174248479560int);
    lemma_six_sq_step(6739986666787659948666753771754907668435123152453366300092964375657nat, 184749333728248542570142791717574184416245617813779191188968695174248479560int);
    assert((184749333728248542570142791717574184416245617813779191188968695174248479560int * 184749333728248542570142791717574184416245617813779191188968695174248479560int) % ll == 6731284224835436046319878663119655920677921167712429926884391266491054729833int);
    lemma_six_sq_mul_step(13479973333575319897333507543509815336870246304906732600185928751314nat, 6731284224835436046319878663119655920677921167712429926884391266491054729833int);
    assert((((6731284224835436046319878663119655920677921167712429926884391266491054729833int * 6731284224835436046319878663119655920677921167712429926884391266491054729833int) % ll) * 6int) % ll == 5825222915034874879046703016841021790676422997094403714485206509477926853709int);
    lemma_six_sq_mul_step(26959946667150639794667015087019630673740492609813465200371857502629nat, 5825222915034874879046703016841021790676422997094403714485206509477926853709int);
    assert((((5825222915034874879046703016841021790676422997094403714485206509477926853709int * 5825222915034874879046703016841021790676422997094403714485206509477926853709int) % ll) * 6int) % ll == 1738275058609575251173553215565728465116933126677616702560625176573635473636int);
}

/// Steps 226 through 250 of the chain.
#[verifier::rlimit(100)]
proof fn lemma_six_chain_9()
    ensures
        pow(6, 1809251394333065553493296640760748560214279089844976901500487734571363562747nat) % (field_order() as int) == 4202356475871964119699734399548423449193549369991576068503119564443318355924int,
{
    let ll = field_order() as int;
    lemma_six_chain_8();
    lemma_six_sq_mul_step(53919893334301279589334030174039261347480985219626930400743715005259nat, 1738275058609575251173553215565728465116933126677616702560625176573635473636int);
    assert((((1738275058609575251173553215565728465116933126677616702560625176573635473636int * 1738275058609575251173553215565728465116933126677616702560625176573635473636int) % ll) * 6int) % ll == 4106957104336250718580868891792628242913671858868476059960412364491590798155int);
    lemma_six_sq_step(107839786668602559178668060348078522694961970439253860801487430010519nat, 4106957104336250718580868891792628242913671858868476059960412364491590798155int);
    assert((4106957104336250718580868891792628242913671858868476059960412364491590798155int * 4106957104336250718580868891792628242913671858868476059960412364491590798155int) % ll == 6658959435702774828243555803439995554878190895621707488174358807236732630490int);
    lemma_six_sq_step(215679573337205118357336120696157045389923940878507721602974860021038nat, 6658959435702774828243555803439995554878190895621707488174358807236732630490int);
    assert((6658959435702774828243555803439995554878190895621707488174358807236732630490int * 6658959435702774828243555803439995554878190895621707488174358807236732630490int) % ll == 6697012690546940267467786065707109725406347310467418771400634694838220362091int);
    lemma_six_sq_mul_step(431359146674410236714672241392314090779847881757015443205949720042076nat, 6697012690546940267467786065707109725406347310467418771400634694838220362091int);
    assert((((6697012690546940267467786065707109725406347310467418771400634694838220362091int * 6697012690546940267467786065707109725406347310467418771400634694838220362091int) % ll) * 6int) % ll == 6499823899416475124614335875830523410101995103650420147805211561924142444991int);
    lemma_six_sq_mul_step(862718293348820473429344482784628181559695763514030886411899440084153nat, 6499823899416475124614335875830523410101995103650420147805211561924142444991int);
    assert((((6499823899416475124614335875830523410101995103650420147805211561924142444991int * 6499823899416475124614335875830523410101995103650420147805211561924142444991int) % ll) * 6int) % ll == 5368787117998433641375886192060742429154600280415298999687727968473578763192int);
    lemma_six_sq_mul_step(1725436586697640946858688965569256363119391527028061772823798880168307nat, 5368787117998433641375886192060742429154600280415298999687727968473578763192int);
    assert((((5368787117998433641375886192060742429154600280415298999687727968473578763192int * 5368787117998433641375886192060742429154600280415298999687727968473578763192int) % ll) * 6int) % ll == 1865690223251553431012631360701036900615399010086686338319162243450624045876int);
    lemma_six_sq_mul_step(3450873173395281893717377931138512726238783054056123545647597760336615nat, 1865690223251553431012631360701036900615399010086686338319162243450624045876int);
    assert((((1865690223251553431012631360701036900615399010086686338319162243450624045876int * 1865690223251553431012631360701036900615399010086686338319162243450624045876int) % ll) * 6int) % ll == 498248168314658782525211768146293153501779952617243378700859251162647390315int);
    lemma_six_sq_step(6901746346790563787434755862277025452477566108112247091295195520673231nat, 498248168314658782525211768146293153501779952617243378700859251162647390315int);
    assert((498248168314658782525211768146293153501779952617243378700859251162647390315int * 498248168314658782525211768146293153501779952617243378700859251162647390315int) % ll == 1127736194757328933292098602545655463270877344264688985652207247932600794358int);
    lemma_six_sq_mul_step(13803492693581127574869511724554050904955132216224494182590391041346462nat, 1127736194757328933292098602545655463270877344264688985652207247932600794358int);
    assert((((1127736194757328933292098602545655463270877344264688985652207247932600794358int * 1127736194757328933292098602545655463270877344264688985652207247932600794358int) % ll) * 6int) % ll == 2057683819587841591308559250440559753299075778036861519801443076069767800910int);
    lemma_six_sq_step(27606985387162255149739023449108101809910264432448988365180782082692925nat, 2057683819587841591308559250440559753299075778036861519801443076069767800910int);
    assert((2057683819587841591308559250440559753299075778036861519801443076069767800910int * 2057683819587841591308559250440559753299075778036861519801443076069767800910int) % ll == 6927728871653964036471511637526122037470630609591096424787740343563231953616int);
    lemma_six_sq_mul_step(55213970774324510299478046898216203619820528864897976730361564165385850nat, 6927728871653964036471511637526122037470630609591096424787740343563231953616int);
    assert((((6927728871653964036471511637526122037470630609591096424787740343563231953616int * 6927728871653964036471511637526122037470630609591096424787740343563231953616int) % ll) * 6int) % ll == 5408558832641841843564490525091707504174915806064731640755078320097343345797int);
    lemma_six_sq_mul_step(110427941548649020598956093796432407239641057729795953460723128330771701nat, 5408558832641841843564490525091707504174915806064731640755078320097343345797int);
    assert((((5408558832641841843564490525091707504174915806064731640755078320097343345797int * 5408558832641841843564490525091707504174915806064731640755078320097343345797int) % ll) * 6int) % ll == 1854078814437718674225070559632354100824999702465502691650934515661919220478int);
    lemma_six_sq_mul_step(220855883097298041197912187592864814479282115459591906921446256661543403nat, 1854078814437718674225070559632354100824999702465502691650934515661919220478int);
    assert((((1854078814437718674225070559632354100824999702465502691650934515661919220478int * 1854078814437718674225070559632354100824999702465502691650934515661919220478int) % ll) * 6int) % ll == 2069536396112301544329788594961296227611700590572508262182707622804778336556int);
    lemma_six_sq_step(441711766194596082395824375185729628958564230919183813842892513323086807nat, 2069536396112301544329788594961296227611700590572508262182707622804778336556int);
    assert((2069536396112301544329788594961296227611700590572508262182707622804778336556int * 2069536396112301544329788594961296227611700590572508262182707622804778336556int) % ll == 4601971336341565955716448327294252219003930789032984278763258681164048383181int);
    lemma_six_sq_mul_step(883423532389192164791648750371459257917128461838367627685785026646173614nat, 4601971336341565955716448327294252219003930789032984278763258681164048383181int);
    assert((((4601971336341565955716448327294252219003930789032984278763258681164048383181int * 4601971336341565955716448327294252219003930789032984278763258681164048383181int) % ll) * 6int) % ll == 2173111668603143572478355656913742869370787122620125667825945886518893434855int);
    lemma_six_sq_step(1766847064778384329583297500742918515834256923676735255371570053292347229nat, 2173111668603143572478355656913742869370787122620125667825945886518893434855int);
    assert((2173111668603143572478355656913742869370787122620125667825945886518893434855int * 2173111668603143572478355656913742869370787122620125667825945886518893434855int) % ll == 6281504256675234823466536499386863578712288022425217084834783690641967306742int);
    lemma_six_sq_step(3533694129556768659166595001485837031668513847353470510743140106584694458nat, 6281504256675234823466536499386863578712288022425217084834783690641967306742int);
    assert((6281504256675234823466536499386863578712288022425217084834783690641967306742int * 6281504256675234823466536499386863578712288022425217084834783690641967306742int) % ll == 8146968499428001623860305380525349561802561532526433215518633079609730255int);
    lemma_six_sq_mul_step(7067388259113537318333190002971674063337027694706941021486280213169388916nat, 8146968499428001623860305380525349561802561532526433215518633079609730255int);
    assert((((8146968499428001623860305380525349561802561532526433215518633079609730255int * 8146968499428001623860305380525349561802561532526433215518633079609730255int) % ll) * 6int) % ll == 1681064240658764279297972278231165785112739624242286425335546853226684908040int);
    lemma_six_sq_mul_step(14134776518227074636666380005943348126674055389413882042972560426338777833nat, 1681064240658764279297972278231165785112739624242286425335546853226684908040int);
    assert((((1681064240658764279297972278231165785112739624242286425335546853226684908040int * 1681064240658764279297972278231165785112739624242286425335546853226684908040int) % ll) * 6int) % ll == 4649720743443670340926021086474379681136288005340072498432599907736237523055int);
    lemma_six_sq_mul_step(28269553036454149273332760011886696253348110778827764085945120852677555667nat, 4649720743443670340926021086474379681136288005340072498432599907736237523055int);
    assert((((4649720743443670340926021086474379681136288005340072498432599907736237523055int * 4649720743443670340926021086474379681136288005340072498432599907736237523055int) % ll) * 6int) % ll == 4992300958447235670395841086595905150673895537377267318957792200927171562961int);
    lemma_six_sq_mul_step(56539106072908298546665520023773392506696221557655528171890241705355111335nat, 4992300958447235670395841086595905150673895537377267318957792200927171562961int);
    assert((((4992300958447235670395841086595905150673895537377267318957792200927171562961int * 4992300958447235670395841086595905150673895537377267318957792200927171562961int) % ll) * 6int) % ll == 3527217850220925156443690736863901658672874504272136189939075226670002126831int);
    lemma_six_sq_mul_step(113078212145816597093331040047546785013392443115311056343780483410710222671nat, 3527217850220925156443690736863901658672874504272136189939075226670002126831int);
    assert((((3527217850220925156443690736863901658672874504272136189939075226670002126831int * 3527217850220925156443690736863901658672874504272136189939075226670002126831int) % ll) * 6int) % ll == 5377764079255488151892269603634153754758940791128168402231829783692968877246int);
    lemma_six_sq_step(226156424291633194186662080095093570026784886230622112687560966821420445343nat, 5377764079255488151892269603634153754758940791128168402231829783692968877246int);
    assert((5377764079255488151892269603634153754758940791128168402231829783692968877246int * 5377764079255488151892269603634153754758940791128168402231829783692968877246int) % ll == 3938826030013345525706358573429396615346676382528888211616602290774025466061int);
    lemma_six_sq_mul_step(452312848583266388373324160190187140053569772461244225375121933642840890686nat, 3938826030013345525706358573429396615346676382528888211616602290774025466061int);
    assert((((3938826030013345525706358573429396615346676382528888211616602290774025466061int * 3938826030013345525706358573429396615346676382528888211616602290774025466061int) % ll) * 6int) % ll == 2888458301884886025703078162347441800743239501754014395563848775056227786773int);
    lemma_six_sq_mul_step(904625697166532776746648320380374280107139544922488450750243867285681781373nat, 2888458301884886025703078162347441800743239501754014395563848775056227786773int);
    assert((((2888458301884886025703078162347441800743239501754014395563848775056227786773int * 2888458301884886025703078162347441800743239501754014395563848775056227786773int) % ll) * 6int) % ll == 4202356475871964119699734399548423449193549369991576068503119564443318355924int);
}

/// The whole chain: the quarter-order power of six is the fixed square
/// root of minus one.
pub proof fn lemma_six_quarter_power()
    ensures
        pow(6, quarter_order()) % (field_order() as int) == sqrt_minus_one_value(),
{
    lemma_six_chain_9();
}

} // verus!
